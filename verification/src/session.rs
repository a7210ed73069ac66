//! The rotating session key material.
//!
//! The verifier holds a 32-byte ratchet value. Every issuance re-derives
//! it as `SHA-256(previous material ∥ signing-key bytes)` and hands out
//! the base64 encoding of the new value. The ratchet is an owned value:
//! callers that share it across workers must serialize access to it, so
//! that each derivation is one atomic read-modify-write.

use vstd::prelude::*;
use crate::digest::{base64_decode_of, base64_encode, base64_of, sha256, sha256_of};
use crate::keys::SigningIdentity;
use crate::wire::push_slice;

verus! {

/// The verifier's rotating session key material.
pub struct SessionRatchet {
    key: Vec<u8>,
}

impl SessionRatchet {
    /// The material is exactly 32 bytes.
    pub closed spec fn wf(&self) -> bool {
        self.key@.len() == 32
    }

    /// The current 32-byte material.
    pub closed spec fn material(&self) -> Seq<u8> {
        self.key@
    }

    /// Starts the ratchet from a 32-byte seed.
    pub fn new(seed: Vec<u8>) -> (r: SessionRatchet)
        requires
            seed@.len() == 32,
        ensures
            r.wf(),
            r.material() == seed@,
    {
        SessionRatchet { key: seed }
    }

    /// Advances the ratchet one step and returns the base64 encoding of
    /// the new material. Every call advances the ratchet, so two
    /// successive calls return the encodings of two successive chain
    /// values.
    pub fn gen_session_key(&mut self, identity: &SigningIdentity) -> (ssk: Vec<u8>)
        requires
            old(self).wf(),
            identity.wf(),
        ensures
            final(self).wf(),
            final(self).material() == sha256_of(old(self).material() + identity.material()),
            ssk@ == base64_of(final(self).material()),
            ssk@.len() == 44,
            base64_decode_of(ssk@) == Some(final(self).material()),
    {
        let mut input: Vec<u8> = Vec::new();
        push_slice(&mut input, &self.key);
        push_identity(&mut input, identity);
        assert(input@ =~= old(self).material() + identity.material());
        let next = sha256(&input);
        let ssk = base64_encode(&next);
        self.key = next;
        ssk
    }
}

/// Appends the identity's secret bytes to `out`.
fn push_identity(out: &mut Vec<u8>, identity: &SigningIdentity)
    ensures
        final(out)@ == old(out)@ + identity.material(),
{
    push_slice(out, identity.secret_bytes())
}

} // verus!
