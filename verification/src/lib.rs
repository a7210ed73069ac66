//! A zero-knowledge attestation based authentication protocol.
//!
//! A prover shows, without revealing them, that it knows an identity
//! (user id, service id, password) whose target hash appears in a shared
//! reference artifact; a verifier checks the attestation's public journal
//! against freshly fetched reference data and, on success, signs and
//! encrypts a rotating session credential.

pub mod attest;
pub mod bindings;
pub mod codec;
pub mod digest;
pub mod keys;
pub mod models;
pub mod pke;
pub mod prover;
pub mod server;
pub mod session;
pub mod wire;
