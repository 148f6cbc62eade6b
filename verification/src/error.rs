use vstd::prelude::*;

verus! {

/// How a transfer operation can fail. The first variant is an input the
/// caller can repair; the other two are the internal class: a primitive
/// failure or an accounting value that cannot be represented.
#[derive(Clone, Copy, Debug, PartialEq, Eq, Structural)]
pub enum TransferError {
    /// The buffer length cannot be represented in the size domain the
    /// transfer primitive accepts. Detected before the primitive runs; no
    /// transfer occurs.
    InvalidInput,
    /// The transfer primitive reported a non-zero status, carried here
    /// verbatim for the caller's diagnostics.
    PrimitiveFailure(i32),
    /// The pre/post difference of the remaining-byte counter is negative or
    /// too large for the buffer-length domain, so no correct count can be
    /// returned.
    AmountOutOfRange,
}

} // verus!
