//! The prover's side of the handshake.
//!
//! The prover packs its identity fields into the fixed-offset input
//! buffer, obtains an attestation (reusing a cached one only if it still
//! verifies against the expected program identity), sends the request,
//! and decrypts and decodes the signed session bundle out of the
//! response.

use vstd::prelude::*;
use crate::attest::{
    authenticate_user, contains_seq, target_hex_of, Attestation, EngineError, ProgramId,
    password_of, service_id_of, user_id_of, verify_attestation,
};
use crate::codec::{
    dec_attestation, dec_frame, dec_signed, decode_attestation, decode_frame,
    decode_signed_response, enc_bundle, encode_request, lemma_request_round_trip, Request,
    SignedResponse,
};
use crate::digest::{base64_of, sha256_of};
use crate::keys::{ed25519_sign_of, SigningIdentity};
use crate::pke::{generate_rsa_keypair, rsa_decrypt, rsa_decrypt_of, rsa_keypair};
use crate::server::{handle_request, RequestOutcome};
use crate::session::SessionRatchet;
use crate::wire::push_slice;

verus! {

/// The separator byte between the packed identity fields. It is never
/// validated by the attestation program.
pub const SEPARATOR: u8 = 0;

/// Failure modes of opening a response.
#[derive(Clone, Copy, Debug, PartialEq, Eq, Structural)]
pub enum ClientError {
    /// The response frame or the decrypted plaintext is malformed.
    MalformedResponse,
    /// The ciphertext does not decrypt under the ephemeral private key.
    DecryptFailure,
}

/// Packs the identity fields at their fixed offsets: user id at bytes
/// 0 through 9, service id at 11 through 20, password from 22 on, with a
/// separator at bytes 10 and 21. Refuses fields that do not fit the
/// layout or leave the buffer under 29 bytes.
pub fn pack_input(user_id: &Vec<u8>, service_id: &Vec<u8>, password: &Vec<u8>) -> (r: Option<
    Vec<u8>,
>)
    ensures
        r is Some <==> (user_id@.len() == 10 && service_id@.len() == 10 && password@.len() >= 7),
        r is Some ==> r->0@ == user_id@ + seq![SEPARATOR] + service_id@ + seq![SEPARATOR]
            + password@,
        r is Some ==> r->0@.len() >= 29,
        r is Some ==> user_id_of(r->0@) == user_id@,
        r is Some ==> service_id_of(r->0@) == service_id@,
        r is Some ==> password_of(r->0@) == password@,
{
    if user_id.len() != 10 || service_id.len() != 10 || password.len() < 7 {
        return None;
    }
    let mut buf: Vec<u8> = Vec::new();
    push_slice(&mut buf, user_id);
    buf.push(SEPARATOR);
    push_slice(&mut buf, service_id);
    buf.push(SEPARATOR);
    push_slice(&mut buf, password);
    assert(buf@ =~= user_id@ + seq![SEPARATOR] + service_id@ + seq![SEPARATOR] + password@);
    assert(user_id_of(buf@) =~= user_id@);
    assert(service_id_of(buf@) =~= service_id@);
    assert(password_of(buf@) =~= password@);
    Some(buf)
}

/// The cached bytes decode to an attestation bound to the expected
/// program identity.
pub open spec fn cache_hit(cached: Option<Vec<u8>>, expected: Seq<u32>) -> bool {
    &&& cached is Some
    &&& dec_attestation(cached->0@) is Some
    &&& dec_attestation(cached->0@)->0.program_id == expected
}

/// Obtains an attestation for the packed input: reuses the cached
/// encoding if it decodes and still verifies against the expected
/// program identity, and otherwise discards it and proves afresh.
pub fn obtain_attestation(
    cached: &Option<Vec<u8>>,
    program_id: &ProgramId,
    input: &Vec<u8>,
    artifact: &Vec<u8>,
) -> (r: Result<Attestation, EngineError>)
    requires
        program_id.wf(),
    ensures
        cache_hit(*cached, program_id@) ==> (r is Ok && r->Ok_0@ == dec_attestation(
            cached->0@,
        )->0),
        !cache_hit(*cached, program_id@) && input@.len() >= 29 ==> (r is Ok
            && r->Ok_0@.journal == crate::attest::journal_of(input@, artifact@)),
        !cache_hit(*cached, program_id@) && input@.len() < 29 ==> r == Err::<
            Attestation,
            EngineError,
        >(EngineError::ProveFailure),
        r is Ok ==> r->Ok_0.wf() && r->Ok_0@.program_id == program_id@,
{
    match cached {
        Some(bytes) => {
            match decode_attestation(bytes) {
                Some(attestation) => {
                    match verify_attestation(&attestation, program_id) {
                        Ok(_) => {
                            return Ok(attestation);
                        },
                        Err(_) => (),
                    }
                },
                None => (),
            }
        },
        None => (),
    }
    authenticate_user(program_id, input, artifact)
}

/// What decrypting the framed response with the ephemeral private key
/// yields.
pub open spec fn response_plain(private_key_der: Seq<u8>, frame: Seq<u8>) -> Option<Seq<u8>> {
    match dec_frame(frame) {
        Some(ciphertext) => rsa_decrypt_of(private_key_der, ciphertext),
        None => None,
    }
}

/// The signed response carried by a framed, encrypted response, if any.
pub open spec fn opened_response(private_key_der: Seq<u8>, frame: Seq<u8>) -> Option<
    crate::codec::SignedResponseV,
> {
    match response_plain(private_key_der, frame) {
        Some(plaintext) => dec_signed(plaintext),
        None => None,
    }
}

/// Opens a framed response: unframes, decrypts with the ephemeral
/// private key, and decodes the signed session bundle.
pub fn open_response(private_key_der: &Vec<u8>, frame: &Vec<u8>) -> (r: Result<
    SignedResponse,
    ClientError,
>)
    ensures
        r is Ok <==> opened_response(private_key_der@, frame@) is Some,
        r is Ok ==> r->Ok_0@ == opened_response(private_key_der@, frame@)->0,
        r is Ok ==> r->Ok_0.wf(),
        (r is Err && r->Err_0 == ClientError::DecryptFailure) <==> (dec_frame(frame@) is Some
            && rsa_decrypt_of(private_key_der@, dec_frame(frame@)->0) is None),
        (r is Err && r->Err_0 == ClientError::MalformedResponse) <==> (dec_frame(frame@) is None
            || (response_plain(private_key_der@, frame@) is Some && dec_signed(
            response_plain(private_key_der@, frame@)->0,
        ) is None)),
{
    let ciphertext = match decode_frame(frame) {
        Some(c) => c,
        None => {
            return Err(ClientError::MalformedResponse);
        },
    };
    let plaintext = match rsa_decrypt(private_key_der, &ciphertext) {
        Some(p) => p,
        None => {
            return Err(ClientError::DecryptFailure);
        },
    };
    match decode_signed_response(&plaintext) {
        Some(signed) => Ok(signed),
        None => Err(ClientError::MalformedResponse),
    }
}

/// The whole handshake as one law: a prover with a fresh ephemeral
/// keypair packs an input, proves, sends the encoded request to the
/// verifier's per-request algorithm, and opens the reply. Whenever a
/// signed response comes back, its bundle carries the identity hash
/// `SHA-256(user id ∥ service id)`, the freshly ratcheted session key,
/// the issuance timestamp, and a signature over the bundle's canonical
/// encoding — and the target hash was present in the artifact. Whether
/// one comes back at all also hangs on the ephemeral key generation and
/// the encryption, whose success no contract can name.
pub fn handshake_round_trip(
    program_id: &ProgramId,
    input: &Vec<u8>,
    artifact: &Vec<u8>,
    identity: &SigningIdentity,
    ratchet: &mut SessionRatchet,
    timestamp: u64,
) -> (r: Option<SignedResponse>)
    requires
        program_id.wf(),
        old(ratchet).wf(),
        identity.wf(),
        input@.len() >= 29,
    ensures
        final(ratchet).wf(),
        r is Some ==> contains_seq(artifact@, target_hex_of(input@)),
        r is Some ==> r->0@.bundle.identity_hash == sha256_of(
            user_id_of(input@) + service_id_of(input@),
        ),
        r is Some ==> r->0@.bundle.ssk == base64_of(
            sha256_of(old(ratchet).material() + identity.material()),
        ),
        r is Some ==> r->0@.bundle.timestamp == timestamp,
        r is Some ==> r->0@.signature == ed25519_sign_of(
            identity.material(),
            enc_bundle(r->0@.bundle),
        ),
        r is Some ==> final(ratchet).material() == sha256_of(
            old(ratchet).material() + identity.material(),
        ),
{
    let keypair = match generate_rsa_keypair() {
        Some(kp) => kp,
        None => {
            return None;
        },
    };
    let (private_der, public_der) = keypair;
    let ghost public_view = public_der@;
    let attestation = match authenticate_user(program_id, input, artifact) {
        Ok(a) => a,
        Err(_) => {
            return None;
        },
    };
    let request = Request { public_key: public_der, attestation };
    let pk_len = request.public_key.len();
    let request_bytes = encode_request(&request);
    proof {
        assert(request@.public_key.len() == pk_len);
        lemma_request_round_trip(request@);
    }
    let outcome = handle_request(&request_bytes, program_id, artifact, identity, ratchet, timestamp);
    let frame = match outcome {
        RequestOutcome::Reply(frame) => frame,
        RequestOutcome::Rejected(_) => {
            return None;
        },
        RequestOutcome::Aborted(_) => {
            return None;
        },
    };
    proof {
        assert(rsa_keypair(
            private_der@,
            crate::codec::dec_request(request_bytes@)->0.public_key,
        )) by {
            assert(crate::codec::dec_request(request_bytes@)->0.public_key == public_view);
        }
    }
    match open_response(&private_der, &frame) {
        Ok(signed) => Some(signed),
        Err(_) => {
            // The reply is proved to decrypt and decode under the
            // matching private half, so this arm cannot be reached.
            proof {
                assert(false);
            }
            None
        },
    }
}

} // verus!
