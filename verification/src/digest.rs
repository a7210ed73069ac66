//! Byte-level hashing and text-encoding primitives.
//!
//! The protocol commits to SHA-256 digests, matches hex-encoded digests
//! against an allow-list, and transports session keys in base64. The
//! digests themselves come from outside crates; their results are either
//! named abstractly (`sha256_of`) or pinned down exactly (`hex_of`).

use vstd::prelude::*;
use sha2::Digest;
use base64::Engine;

verus! {

/// The SHA-256 digest of a byte sequence, left abstract: equal inputs give
/// equal 32-byte digests, and nothing further is assumed of the value.
pub uninterp spec fn sha256_of(data: Seq<u8>) -> Seq<u8>;

/// Relies on sha2::Sha256 (through the Digest trait): the digest depends on
/// the input bytes alone and is always 32 bytes long.
#[verifier::external_body]
pub fn sha256(data: &Vec<u8>) -> (digest: Vec<u8>)
    ensures
        digest@ == sha256_of(data@),
        digest@.len() == 32,
{
    sha2::Sha256::digest(data.as_slice()).to_vec()
}

/// The ASCII code of the lowercase hex digit for `n < 16`.
pub open spec fn hex_digit(n: u8) -> u8 {
    if n < 10 {
        (48 + n) as u8
    } else {
        (87 + n) as u8
    }
}

/// Lowercase hex encoding: two ASCII digits per input byte, high nibble first.
pub open spec fn hex_of(data: Seq<u8>) -> Seq<u8> {
    Seq::new(
        2 * data.len(),
        |i: int|
            if i % 2 == 0 {
                hex_digit(data[i / 2] / 16)
            } else {
                hex_digit(data[i / 2] % 16)
            },
    )
}

/// Relies on hex::encode: lowercase, two digits per byte, high nibble first.
#[verifier::external_body]
pub fn hex_lower(data: &Vec<u8>) -> (text: Vec<u8>)
    ensures
        text@ == hex_of(data@),
{
    hex::encode(data.as_slice()).into_bytes()
}

/// The standard padded base64 encoding of a byte sequence, left abstract.
pub uninterp spec fn base64_of(data: Seq<u8>) -> Seq<u8>;

/// What standard padded base64 decoding yields on a byte sequence, left
/// abstract: `None` stands for a malformed encoding.
pub uninterp spec fn base64_decode_of(text: Seq<u8>) -> Option<Seq<u8>>;

/// Relies on base64's STANDARD engine encode: the output depends on the
/// input bytes alone, and a padded encoding is four characters for every
/// three input bytes, rounded up. The encoding is canonical, so the
/// STANDARD decode (strict padding, no trailing bits) inverts it.
#[verifier::external_body]
pub fn base64_encode(data: &Vec<u8>) -> (text: Vec<u8>)
    ensures
        text@ == base64_of(data@),
        text@.len() == 4 * ((data@.len() + 2) / 3),
        base64_decode_of(text@) == Some(data@),
{
    base64::engine::general_purpose::STANDARD.encode(data.as_slice()).into_bytes()
}

/// Relies on base64's STANDARD engine decode, which requires canonical
/// padding and rejects set trailing bits: decoding succeeds exactly on
/// canonical encodings, and then inverts `base64_of`.
#[verifier::external_body]
pub fn base64_decode(text: &Vec<u8>) -> (data: Option<Vec<u8>>)
    ensures
        data is Some <==> base64_decode_of(text@) is Some,
        data is Some ==> data->0@ == base64_decode_of(text@)->0,
        data is Some ==> base64_of(data->0@) == text@,
{
    match base64::engine::general_purpose::STANDARD.decode(text.as_slice()) {
        Ok(v) => Some(v),
        Err(_) => None,
    }
}

} // verus!
