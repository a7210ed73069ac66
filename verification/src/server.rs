//! The verifier's per-request algorithm.
//!
//! For each decoded request the verifier checks the attestation's binding
//! to the fixed program identity, re-validates the journal against
//! freshly fetched reference data, and only then derives a session key,
//! signs the session bundle, and encrypts the response under the
//! prover's ephemeral public key. Decode and binding failures abort the
//! connection; policy rejections send nothing and leave it open.

use vstd::prelude::*;
use crate::attest::{decode_journal, verify_attestation, Journal, JournalV, ProgramId};
use crate::codec::{
    decode_request, dec_frame, dec_request, enc_bundle, enc_signed, encode_bundle, encode_frame,
    encode_signed_response, SignBundle, SignBundleV, SignedResponse, SignedResponseV,
};
use crate::digest::{base64_of, sha256, sha256_of};
use crate::keys::{ed25519_sign_of, private_sign, SigningIdentity};
use crate::pke::{rsa_decrypt_of, rsa_encrypt, rsa_encryptable, rsa_keypair};
use crate::session::SessionRatchet;
use crate::wire::bytes_eq;

verus! {

/// A normal negative authentication outcome: nothing is sent and the
/// connection stays open.
#[derive(Clone, Copy, Debug, PartialEq, Eq, Structural)]
pub enum RejectReason {
    /// The journal's existence bit is not set.
    AbsentTarget,
    /// The freshly fetched artifact does not hash to the journal's
    /// reference hash.
    StaleArtifact,
}

/// A security-relevant failure: the connection must be torn down.
#[derive(Clone, Copy, Debug, PartialEq, Eq, Structural)]
pub enum ServeError {
    /// The request bytes are not one well-formed request encoding.
    MalformedRequest,
    /// The attestation is bound to another program identity.
    UntrustedAttestation,
    /// The response could not be encrypted under the prover's key.
    EncryptFailure,
}

/// What one request leads to.
#[derive(Debug)]
pub enum RequestOutcome {
    /// The framed, encrypted response to send back.
    Reply(Vec<u8>),
    /// Send nothing; keep the connection.
    Rejected(RejectReason),
    /// Send nothing; tear the connection down.
    Aborted(ServeError),
}

/// The verifier's three-way policy decision on a journal.
#[derive(Clone, Copy, Debug, PartialEq, Eq, Structural)]
pub enum AuthDecision {
    Granted,
    AbsentTarget,
    StaleArtifact,
}

/// A journal authorizes issuance against an artifact exactly when its
/// existence bit is set and it committed to this artifact's hash.
pub open spec fn authorized(j: JournalV, artifact: Seq<u8>) -> bool {
    j.existence == 1 && j.reference_hash == sha256_of(artifact)
}

/// Re-validates a journal against freshly fetched reference data:
/// grants exactly when the existence bit is set and the artifact hashes
/// to the journal's reference hash.
pub fn authorize(journal: &Journal, artifact: &Vec<u8>) -> (r: AuthDecision)
    ensures
        r == AuthDecision::Granted <==> authorized(journal@, artifact@),
        r == AuthDecision::AbsentTarget <==> journal@.existence != 1,
        r == AuthDecision::StaleArtifact <==> (journal@.existence == 1 && journal@.reference_hash
            != sha256_of(artifact@)),
{
    if journal.existence != 1 {
        return AuthDecision::AbsentTarget;
    }
    let fresh = sha256(artifact);
    if !bytes_eq(&journal.reference_hash, &fresh) {
        return AuthDecision::StaleArtifact;
    }
    AuthDecision::Granted
}

/// The bundle issued from the ratchet state `prev`, the signing identity's
/// secret bytes, the journal's identity hash and the issuance timestamp.
pub open spec fn issued_bundle(
    prev: Seq<u8>,
    identity_material: Seq<u8>,
    identity_hash: Seq<u8>,
    timestamp: u64,
) -> SignBundleV {
    SignBundleV {
        ssk: base64_of(sha256_of(prev + identity_material)),
        identity_hash: identity_hash,
        timestamp: timestamp,
    }
}

/// The signed response issued from the same values: the signature is over
/// the canonical encoding of the bundle.
pub open spec fn issued_response(
    prev: Seq<u8>,
    identity_material: Seq<u8>,
    identity_hash: Seq<u8>,
    timestamp: u64,
) -> SignedResponseV {
    SignedResponseV {
        signature: ed25519_sign_of(
            identity_material,
            enc_bundle(issued_bundle(prev, identity_material, identity_hash, timestamp)),
        ),
        bundle: issued_bundle(prev, identity_material, identity_hash, timestamp),
    }
}

/// Derives the next session key, builds the session bundle, and signs its
/// canonical encoding. Every call advances the ratchet exactly one step.
pub fn issue_session(
    ratchet: &mut SessionRatchet,
    identity: &SigningIdentity,
    identity_hash: Vec<u8>,
    timestamp: u64,
) -> (r: SignedResponse)
    requires
        old(ratchet).wf(),
        identity.wf(),
        identity_hash@.len() == 32,
    ensures
        final(ratchet).wf(),
        final(ratchet).material() == sha256_of(old(ratchet).material() + identity.material()),
        r@ == issued_response(
            old(ratchet).material(),
            identity.material(),
            identity_hash@,
            timestamp,
        ),
        r.wf(),
{
    let ssk = ratchet.gen_session_key(identity);
    let bundle = SignBundle { ssk, identity_hash, timestamp };
    let encoded = encode_bundle(&bundle);
    let signature = private_sign(identity, &encoded);
    let r = SignedResponse { signature, bundle };
    assert(r@ =~= issued_response(
        old(ratchet).material(),
        identity.material(),
        identity_hash@,
        timestamp,
    ));
    r
}

/// The request bytes decode and their attestation is bound to the
/// expected program identity.
pub open spec fn request_trusted(bytes: Seq<u8>, expected: Seq<u32>) -> bool {
    dec_request(bytes) is Some && dec_request(bytes)->0.attestation.program_id == expected
}

/// The journal carried by the (decoded) request bytes.
pub open spec fn request_journal(bytes: Seq<u8>) -> JournalV {
    dec_request(bytes)->0.attestation.journal
}

/// The request is trusted and its journal authorizes issuance against the
/// artifact.
pub open spec fn request_granted(bytes: Seq<u8>, expected: Seq<u32>, artifact: Seq<u8>) -> bool {
    request_trusted(bytes, expected) && authorized(request_journal(bytes), artifact)
}

/// The canonical plaintext of the response to a granted request: the
/// encoding of the signed response issued from the ratchet state `prev`.
pub open spec fn reply_plaintext(
    bytes: Seq<u8>,
    prev: Seq<u8>,
    identity_material: Seq<u8>,
    timestamp: u64,
) -> Seq<u8> {
    enc_signed(
        issued_response(prev, identity_material, request_journal(bytes).identity_hash, timestamp),
    )
}

/// Handles one request: decode, verify the attestation binding, decode
/// the journal, re-validate against the fresh artifact, and on grant
/// derive, sign and encrypt the session credential. The ratchet advances
/// exactly when the request is granted; a session bundle is only ever
/// issued on a granted request; a reply comes exactly when the prover's
/// key accepts the plaintext, and it decrypts under any matching private
/// key to the issued signed response.
pub fn handle_request(
    request_bytes: &Vec<u8>,
    expected_id: &ProgramId,
    artifact: &Vec<u8>,
    identity: &SigningIdentity,
    ratchet: &mut SessionRatchet,
    timestamp: u64,
) -> (r: RequestOutcome)
    requires
        old(ratchet).wf(),
        identity.wf(),
    ensures
        final(ratchet).wf(),
        (r is Aborted && r->Aborted_0 == ServeError::MalformedRequest) <==> dec_request(
            request_bytes@,
        ) is None,
        (r is Aborted && r->Aborted_0 == ServeError::UntrustedAttestation) <==> (dec_request(
            request_bytes@,
        ) is Some && !request_trusted(request_bytes@, expected_id@)),
        (r is Rejected && r->Rejected_0 == RejectReason::AbsentTarget) <==> (request_trusted(
            request_bytes@,
            expected_id@,
        ) && request_journal(request_bytes@).existence != 1),
        (r is Rejected && r->Rejected_0 == RejectReason::StaleArtifact) <==> (request_trusted(
            request_bytes@,
            expected_id@,
        ) && request_journal(request_bytes@).existence == 1 && request_journal(
            request_bytes@,
        ).reference_hash != sha256_of(artifact@)),
        r is Reply <==> (request_granted(request_bytes@, expected_id@, artifact@)
            && rsa_encryptable(
            dec_request(request_bytes@)->0.public_key,
            reply_plaintext(
                request_bytes@,
                old(ratchet).material(),
                identity.material(),
                timestamp,
            ).len() as int,
        )),
        (r is Aborted && r->Aborted_0 == ServeError::EncryptFailure) <==> (request_granted(
            request_bytes@,
            expected_id@,
            artifact@,
        ) && !rsa_encryptable(
            dec_request(request_bytes@)->0.public_key,
            reply_plaintext(
                request_bytes@,
                old(ratchet).material(),
                identity.material(),
                timestamp,
            ).len() as int,
        )),
        !request_granted(request_bytes@, expected_id@, artifact@) ==> *final(ratchet) == *old(
            ratchet,
        ),
        request_granted(request_bytes@, expected_id@, artifact@) ==> final(ratchet).material()
            == sha256_of(old(ratchet).material() + identity.material()),
        r is Reply ==> dec_frame(r->Reply_0@) is Some,
        r is Reply ==> (forall|sk: Seq<u8>|
            #[trigger] rsa_keypair(sk, dec_request(request_bytes@)->0.public_key)
                ==> crate::prover::opened_response(sk, r->Reply_0@) == Some(
                issued_response(
                    old(ratchet).material(),
                    identity.material(),
                    request_journal(request_bytes@).identity_hash,
                    timestamp,
                ),
            )),
{
    let request = match decode_request(request_bytes) {
        Some(request) => request,
        None => {
            return RequestOutcome::Aborted(ServeError::MalformedRequest);
        },
    };
    match verify_attestation(&request.attestation, expected_id) {
        Ok(_) => (),
        Err(_) => {
            return RequestOutcome::Aborted(ServeError::UntrustedAttestation);
        },
    }
    let journal = match decode_journal(&request.attestation) {
        Ok(journal) => journal,
        Err(_) => {
            return RequestOutcome::Aborted(ServeError::UntrustedAttestation);
        },
    };
    match authorize(&journal, artifact) {
        AuthDecision::Granted => (),
        AuthDecision::AbsentTarget => {
            return RequestOutcome::Rejected(RejectReason::AbsentTarget);
        },
        AuthDecision::StaleArtifact => {
            return RequestOutcome::Rejected(RejectReason::StaleArtifact);
        },
    }
    let ghost journal_view = journal@;
    let signed = issue_session(ratchet, identity, journal.identity_hash, timestamp);
    let plaintext = encode_signed_response(&signed);
    proof {
        assert(journal_view == request_journal(request_bytes@));
        assert(plaintext@ == reply_plaintext(
            request_bytes@,
            old(ratchet).material(),
            identity.material(),
            timestamp,
        ));
    }
    let ssk_len = signed.bundle.ssk.len();
    match rsa_encrypt(&request.public_key, &plaintext) {
        Some(ciphertext) => {
            let n = ciphertext.len();
            let frame = encode_frame(&ciphertext);
            proof {
                assert(ciphertext@.len() == n <= u64::MAX);
                crate::codec::lemma_frame_round_trip(ciphertext@);
                assert(signed@.bundle.ssk.len() == ssk_len <= u64::MAX);
                crate::codec::lemma_signed_round_trip(signed@);
                assert forall|sk: Seq<u8>|
                    #[trigger] rsa_keypair(sk, dec_request(request_bytes@)->0.public_key)
                        implies crate::prover::opened_response(sk, frame@) == Some(
                        issued_response(
                            old(ratchet).material(),
                            identity.material(),
                            request_journal(request_bytes@).identity_hash,
                            timestamp,
                        ),
                    ) by {
                    assert(rsa_keypair(sk, request.public_key@));
                    assert(rsa_decrypt_of(sk, ciphertext@) == Some(plaintext@));
                    assert(dec_frame(frame@) == Some(ciphertext@));
                }
            }
            RequestOutcome::Reply(frame)
        },
        None => RequestOutcome::Aborted(ServeError::EncryptFailure),
    }
}

} // verus!
