use crate::descriptor::TransferDescriptor;
use vstd::prelude::*;

verus! {

/// What one invocation of the kernel copy primitive reports back: its status
/// code, and the descriptor fields as the primitive left them. The primitive
/// is the only party that moves bytes and touches the counter; the adapters
/// observe its outcome and account over it.
#[derive(Clone, Copy, Debug)]
pub struct PrimitiveOutcome {
    /// `0` on success, any other value on failure. A failure may still have
    /// moved some bytes before it occurred.
    pub status: i32,
    /// The descriptor's remaining-byte counter after the invocation.
    pub remaining: isize,
    /// The descriptor's logical offset after the invocation.
    pub offset: i64,
}

impl PrimitiveOutcome {
    /// The documented behaviour of the copy primitive when invoked with a
    /// request of `request_len` bytes on a descriptor in state `before`: it
    /// moves some amount bounded by the request and by the bytes remaining,
    /// decrements `remaining` and advances `offset` by exactly that amount,
    /// and an invocation that can move nothing (an empty request, or an
    /// exhausted descriptor) succeeds trivially.
    ///
    /// The adapters do not require this: they are proved to account
    /// correctly over any outcome. Properties that need the primitive to
    /// behave are stated conditionally on it.
    pub open spec fn obeys_contract(self, before: TransferDescriptor, request_len: int) -> bool {
        let moved = before.remaining - self.remaining;
        &&& 0 <= moved
        &&& moved <= request_len
        &&& moved <= (if before.remaining >= 0 {
            before.remaining as int
        } else {
            0
        })
        &&& self.offset == before.offset + moved
        &&& ((request_len == 0 || before.remaining <= 0) ==> self.status == 0)
    }
}

} // verus!
