use crate::descriptor::TransferDescriptor;
use crate::error::TransferError;
use crate::primitive::PrimitiveOutcome;
use crate::transfer::{in_size_domain, run_transfer, transfer_post};
use vstd::prelude::*;

verus! {

/// Push-style adapter over one transfer descriptor: the driver writes bytes
/// for a user-space caller to receive. Wraps the descriptor for the duration
/// of one driver callback and adds size-domain validation, overflow-guarded
/// accounting, and structured errors around the copy primitive.
#[derive(Debug)]
pub struct UioWriter {
    /// The wrapped descriptor's observable state.
    pub descriptor: TransferDescriptor,
}

impl UioWriter {
    pub fn new(descriptor: TransferDescriptor) -> (r: UioWriter)
        ensures
            r.descriptor == descriptor,
    {
        UioWriter { descriptor }
    }

    /// The remaining number of bytes to process, updated after transfer.
    pub fn residual(&self) -> (r: isize)
        ensures
            r == self.descriptor.remaining,
    {
        self.descriptor.remaining
    }

    /// The descriptor's logical position, for diagnostics and flow control.
    pub fn offset(&self) -> (r: i64)
        ensures
            r == self.descriptor.offset,
    {
        self.descriptor.offset
    }

    /// Writes from a caller buffer of `buf_len` bytes: validates the length
    /// against the primitive's size domain, invokes the primitive once
    /// (whose report is `outcome`), and returns the number of bytes moved,
    /// derived from the remaining-byte counter.
    pub fn write(&mut self, buf_len: usize, outcome: PrimitiveOutcome) -> (r: Result<
        usize,
        TransferError,
    >)
        ensures
            transfer_post(old(self).descriptor, final(self).descriptor, buf_len, outcome, r),
            // an empty buffer is a no-op: nothing moves, nothing changes
            (buf_len == 0 && outcome.obeys_contract(old(self).descriptor, buf_len as int))
                ==> (r == Ok::<usize, TransferError>(0)
                    && final(self).descriptor == old(self).descriptor),
            // an exhausted descriptor accepts zero bytes without error
            (old(self).descriptor.remaining <= 0 && in_size_domain(buf_len)
                && outcome.obeys_contract(old(self).descriptor, buf_len as int))
                ==> r == Ok::<usize, TransferError>(0),
            // every successful call returns exactly the counter's decrease
            r matches Ok(amount)
                ==> (amount == old(self).descriptor.remaining - final(self).descriptor.remaining
                    && final(self).descriptor.remaining <= old(self).descriptor.remaining),
            // and never more than the buffer offered, if the primitive behaved
            r matches Ok(amount) ==> (outcome.obeys_contract(old(self).descriptor, buf_len as int)
                ==> amount <= buf_len),
    {
        run_transfer(&mut self.descriptor, buf_len, outcome)
    }

    /// Flushing is a no-op that always succeeds: every write is forwarded to
    /// the primitive synchronously, so there is nothing buffered to flush.
    pub fn flush(&mut self) -> (r: Result<(), TransferError>)
        ensures
            r == Ok::<(), TransferError>(()),
            *final(self) == *old(self),
    {
        Ok(())
    }
}

} // verus!
