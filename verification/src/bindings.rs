//! Result shapes of the host-facing proving interface.
//!
//! A host application shell drives proving and verification through a
//! foreign-function layer; these are the plain values that cross it. The
//! layer itself (exports, async shims) lives outside the library.

use vstd::prelude::*;

verus! {

/// Failure modes reported across the host-facing interface.
#[derive(Clone, Debug)]
pub enum Risc0Error {
    ProveError(String),
    SerializeError(String),
    VerifyError(String),
    DecodeError(String),
}

/// A produced proof, as opaque receipt bytes.
#[derive(Clone, Debug)]
pub struct Risc0ProofOutput {
    pub receipt: Vec<u8>,
}

/// The outcome of verifying receipt bytes.
#[derive(Clone, Debug)]
pub struct Risc0VerifyOutput {
    pub is_valid: bool,
    pub verified_message: String,
}

} // verus!
