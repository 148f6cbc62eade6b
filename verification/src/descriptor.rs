use vstd::prelude::*;

verus! {

/// The observable state of a kernel transfer descriptor: the two fields this
/// layer reads and accounts over. The descriptor itself is owned by the host
/// kernel for the duration of one driver callback; this record mirrors its
/// byte counter and logical position.
#[derive(Clone, Copy, Debug, PartialEq, Eq, Structural)]
pub struct TransferDescriptor {
    /// Bytes left to transfer. The host decrements it on every successful
    /// copy and never increases it. It is signed because the host ABI is
    /// signed; the adapters treat it defensively and never assume it is
    /// non-negative.
    pub remaining: isize,
    /// Logical position within the target resource, advanced by the host as
    /// bytes move. Informational: the adapters only report it.
    pub offset: i64,
}

impl TransferDescriptor {
    pub fn new(remaining: isize, offset: i64) -> (d: TransferDescriptor)
        ensures
            d.remaining == remaining,
            d.offset == offset,
    {
        TransferDescriptor { remaining, offset }
    }
}

} // verus!
