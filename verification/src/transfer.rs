use crate::descriptor::TransferDescriptor;
use crate::error::TransferError;
use crate::primitive::PrimitiveOutcome;
use vstd::prelude::*;

verus! {

/// The transfer primitive's ABI takes the request length as a signed 32-bit
/// value: a buffer length is in its size domain when it fits that range.
pub open spec fn in_size_domain(len: usize) -> bool {
    len <= 0x7fff_ffff
}

/// Everything one transfer operation does, relating the descriptor state
/// before (`before`) and after (`after`) the call, the buffer length, the
/// primitive's reported outcome, and the returned value:
/// a buffer outside the size domain is rejected, and only such a buffer,
/// with the descriptor untouched because the primitive never ran; otherwise
/// the descriptor holds what the primitive left, a non-zero status is
/// propagated with its code, and on success the amount is exactly the
/// counter's pre/post difference whenever that difference is representable,
/// and an error otherwise.
pub open spec fn transfer_post(
    before: TransferDescriptor,
    after: TransferDescriptor,
    buf_len: usize,
    outcome: PrimitiveOutcome,
    r: Result<usize, TransferError>,
) -> bool {
    &&& (r == Err::<usize, TransferError>(TransferError::InvalidInput) <==> !in_size_domain(
        buf_len,
    ))
    &&& (!in_size_domain(buf_len) ==> after == before)
    &&& (in_size_domain(buf_len) ==> {
        &&& after.remaining == outcome.remaining
        &&& after.offset == outcome.offset
        &&& (outcome.status != 0 ==> r == Err::<usize, TransferError>(
            TransferError::PrimitiveFailure(outcome.status),
        ))
        &&& (outcome.status == 0 ==> {
            let moved = before.remaining - outcome.remaining;
            if 0 <= moved <= usize::MAX {
                r == Ok::<usize, TransferError>(moved as usize)
            } else {
                r == Err::<usize, TransferError>(TransferError::AmountOutOfRange)
            }
        })
    })
}

/// Runs one transfer against the descriptor: validates the buffer length,
/// lets the primitive's outcome take effect, and derives the transferred
/// amount from the remaining-byte counter with overflow-guarded arithmetic.
/// Shared by the reader and the writer, whose operations differ only in the
/// direction the primitive copies.
pub(crate) fn run_transfer(
    descriptor: &mut TransferDescriptor,
    buf_len: usize,
    outcome: PrimitiveOutcome,
) -> (r: Result<usize, TransferError>)
    ensures
        transfer_post(*old(descriptor), *final(descriptor), buf_len, outcome, r),
{
    if buf_len > 0x7fff_ffff {
        return Err(TransferError::InvalidInput);
    }
    let before: isize = descriptor.remaining;
    // The primitive runs at this point in the host kernel; the outcome holds
    // its status and the descriptor fields as it left them, whether it
    // succeeded, failed cleanly, or failed after a partial copy.
    descriptor.remaining = outcome.remaining;
    descriptor.offset = outcome.offset;
    if outcome.status != 0 {
        return Err(TransferError::PrimitiveFailure(outcome.status));
    }
    let moved: i128 = before as i128 - outcome.remaining as i128;
    if moved < 0 || moved > usize::MAX as i128 {
        return Err(TransferError::AmountOutOfRange);
    }
    Ok(moved as usize)
}

} // verus!
