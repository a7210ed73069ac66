//! The verifier's long-term signing identity.
//!
//! The identity is a fixed Ed25519 keypair, loaded once from a
//! base64-encoded 32-byte secret. Signatures are deterministic: a function
//! of the secret bytes and the signed message alone.

use vstd::prelude::*;
use ed25519_dalek::Signer;
use crate::digest::{base64_decode, base64_decode_of};

verus! {

/// Failure modes of loading the signing identity.
#[derive(Clone, Copy, Debug, PartialEq, Eq, Structural)]
pub enum KeyError {
    /// The configured secret is not the base64 encoding of 32 bytes.
    BadSecret,
}

/// The Ed25519 signature the holder of `key` produces over `msg`, left
/// abstract: Ed25519 signing is deterministic, so the signature is a
/// function of the 32 secret bytes and the message alone.
pub uninterp spec fn ed25519_sign_of(key: Seq<u8>, msg: Seq<u8>) -> Seq<u8>;

/// Relies on ed25519_dalek::SigningKey::{from_bytes, sign}: any 32 bytes
/// form a signing key, signing is deterministic (RFC 8032), and a
/// signature is 64 bytes.
#[verifier::external_body]
fn ed25519_sign(key: &Vec<u8>, msg: &Vec<u8>) -> (sig: Vec<u8>)
    requires
        key@.len() == 32,
    ensures
        sig@ == ed25519_sign_of(key@, msg@),
        sig@.len() == 64,
{
    let mut secret = [0u8; 32];
    secret.copy_from_slice(key.as_slice());
    let signing_key = ed25519_dalek::SigningKey::from_bytes(&secret);
    signing_key.sign(msg.as_slice()).to_bytes().to_vec()
}

/// The verifier's long-term signing identity: 32 Ed25519 secret bytes.
pub struct SigningIdentity {
    bytes: Vec<u8>,
}

impl SigningIdentity {
    /// The identity is exactly 32 secret bytes.
    pub closed spec fn wf(&self) -> bool {
        self.bytes@.len() == 32
    }

    /// The secret bytes, for stating what derived values are functions of.
    pub closed spec fn material(&self) -> Seq<u8> {
        self.bytes@
    }

    /// The secret bytes, for the session ratchet's derivation input.
    pub(crate) fn secret_bytes(&self) -> (r: &Vec<u8>)
        ensures
            r@ == self.material(),
    {
        &self.bytes
    }
}

/// Decodes the configured base64 secret into the signing identity; fails
/// exactly when the secret is not the encoding of 32 bytes.
pub fn load_signing_identity(secret_b64: &Vec<u8>) -> (r: Result<SigningIdentity, KeyError>)
    ensures
        r is Ok <==> (base64_decode_of(secret_b64@) is Some && base64_decode_of(
            secret_b64@,
        )->0.len() == 32),
        r is Ok ==> r->Ok_0.wf() && r->Ok_0.material() == base64_decode_of(secret_b64@)->0,
        r is Err ==> r->Err_0 == KeyError::BadSecret,
{
    match base64_decode(secret_b64) {
        Some(bytes) => {
            if bytes.len() == 32 {
                Ok(SigningIdentity { bytes })
            } else {
                Err(KeyError::BadSecret)
            }
        },
        None => Err(KeyError::BadSecret),
    }
}

/// Signs the exact byte sequence with the verifier's long-term identity.
/// No domain separation is applied beyond what the signed structure
/// itself encodes.
pub fn private_sign(identity: &SigningIdentity, data: &Vec<u8>) -> (sig: Vec<u8>)
    requires
        identity.wf(),
    ensures
        sig@ == ed25519_sign_of(identity.material(), data@),
        sig@.len() == 64,
{
    ed25519_sign(&identity.bytes, data)
}

} // verus!
