//! Accounting core for scatter/gather kernel I/O transfers.
//!
//! A host kernel hands a device driver an externally owned transfer
//! descriptor: a record with a remaining-byte counter and a logical offset,
//! plus an opaque segment list. The actual cross-address-space byte copy is
//! performed by an opaque kernel primitive that decrements the counter and
//! reports only a status code. This crate verifies everything around that
//! call: size-domain validation before the primitive may run, the derivation
//! of the transferred amount from the counter's pre/post difference with
//! overflow-guarded arithmetic, and the translation of failures into a
//! structured error type.
//!
//! The primitive itself cannot run here, so each adapter operation takes a
//! [`primitive::PrimitiveOutcome`]: the status and descriptor state one
//! invocation reports back. The accounting is proved correct for every
//! possible outcome; the properties that depend on the primitive honouring
//! its documented contract are stated conditionally on
//! [`primitive::PrimitiveOutcome::obeys_contract`].

pub mod descriptor;
pub mod error;
pub mod primitive;
pub mod reader;
pub mod transfer;
pub mod writer;
