//! The prover's ephemeral asymmetric encryption.
//!
//! Each authentication attempt generates a fresh RSA keypair; the public
//! half travels in the request and the verifier encrypts the response
//! under it. Keys are carried as DER bytes so that only plain values
//! cross this boundary.

use vstd::prelude::*;
use rsa::pkcs8::{DecodePrivateKey, DecodePublicKey, EncodePrivateKey, EncodePublicKey};

verus! {

/// What PKCS#1 v1.5 decryption with the given DER-encoded private key
/// yields on a ciphertext, left abstract: decryption is unblinded and
/// deterministic, a function of the key and ciphertext bytes alone.
/// `None` stands for a padding or key failure.
pub uninterp spec fn rsa_decrypt_of(private_key_der: Seq<u8>, ciphertext: Seq<u8>) -> Option<
    Seq<u8>,
>;

/// The private and public DER bytes encode the two halves of one RSA
/// keypair, left abstract. It is asserted only of pairs the generator
/// returned, and it is what ties a ciphertext made under the public half
/// to decryption under the private one.
pub uninterp spec fn rsa_keypair(private_key_der: Seq<u8>, public_key_der: Seq<u8>) -> bool;

/// Whether PKCS#1 v1.5 encryption under the given DER-encoded public key
/// accepts a plaintext of the given length, left abstract: the key
/// either parses or does not, and the padded plaintext either fits the
/// modulus or does not, so success depends on the key bytes and the
/// length alone (the random padding never fails).
pub uninterp spec fn rsa_encryptable(public_key_der: Seq<u8>, plaintext_len: int) -> bool;

/// Relies on rsa::RsaPrivateKey::{new, to_pkcs8_der} and
/// rsa::RsaPublicKey::{from, to_public_key_der}: a fresh random 2048-bit
/// keypair as (private, public) DER bytes. Nothing is assumed of the
/// random value beyond the two halves matching.
#[verifier::external_body]
pub fn generate_rsa_keypair() -> (r: Option<(Vec<u8>, Vec<u8>)>)
    ensures
        r is Some ==> rsa_keypair((r->0).0@, (r->0).1@),
{
    let mut rng = rand::rngs::OsRng;
    let private_key = match rsa::RsaPrivateKey::new(&mut rng, 2048) {
        Ok(k) => k,
        Err(_) => return None,
    };
    let public_key = rsa::RsaPublicKey::from(&private_key);
    let private_der = match private_key.to_pkcs8_der() {
        Ok(d) => d.as_bytes().to_vec(),
        Err(_) => return None,
    };
    let public_der = match public_key.to_public_key_der() {
        Ok(d) => d.to_vec(),
        Err(_) => return None,
    };
    Some((private_der, public_der))
}

/// Relies on rsa::RsaPublicKey::{from_public_key_der, encrypt} with
/// PKCS#1 v1.5 padding: key parsing and the length check are
/// deterministic, so success depends on the key bytes and the plaintext
/// length alone; the padding is random, so nothing is assumed of the
/// ciphertext bytes themselves — only that unblinded decryption under a
/// matching private key strips the padding and gives the plaintext back.
#[verifier::external_body]
pub(crate) fn rsa_encrypt(public_key_der: &Vec<u8>, plaintext: &Vec<u8>) -> (r: Option<Vec<u8>>)
    ensures
        r is Some <==> rsa_encryptable(public_key_der@, plaintext@.len() as int),
        r is Some ==> (forall|sk: Seq<u8>|
            #[trigger] rsa_keypair(sk, public_key_der@) ==> rsa_decrypt_of(sk, r->0@) == Some(
                plaintext@,
            )),
{
    let key = match rsa::RsaPublicKey::from_public_key_der(public_key_der.as_slice()) {
        Ok(k) => k,
        Err(_) => return None,
    };
    let mut rng = rand::rngs::OsRng;
    match key.encrypt(&mut rng, rsa::Pkcs1v15Encrypt, plaintext.as_slice()) {
        Ok(c) => Some(c),
        Err(_) => None,
    }
}

/// Relies on rsa::RsaPrivateKey::{from_pkcs8_der, decrypt} with PKCS#1
/// v1.5 padding: unblinded decryption depends on the key and ciphertext
/// bytes alone.
#[verifier::external_body]
pub(crate) fn rsa_decrypt(private_key_der: &Vec<u8>, ciphertext: &Vec<u8>) -> (r: Option<Vec<u8>>)
    ensures
        r is Some <==> rsa_decrypt_of(private_key_der@, ciphertext@) is Some,
        r is Some ==> r->0@ == rsa_decrypt_of(private_key_der@, ciphertext@)->0,
{
    let key = match rsa::RsaPrivateKey::from_pkcs8_der(private_key_der.as_slice()) {
        Ok(k) => k,
        Err(_) => return None,
    };
    match key.decrypt(rsa::Pkcs1v15Encrypt, ciphertext.as_slice()) {
        Ok(p) => Some(p),
        Err(_) => None,
    }
}

} // verus!
