use base64::Engine;
use ed25519_dalek::Verifier;
use rsa::pkcs8::DecodePrivateKey;
use sha2::Digest;

use zkk::attest::{authenticate_user, protocol_program_id, Attestation, ProgramId};
use zkk::codec::{
    decode_frame, encode_attestation, encode_bundle, encode_frame, encode_request,
    encode_signed_response, Request,
};
use zkk::keys::load_signing_identity;
use zkk::pke::generate_rsa_keypair;
use zkk::prover::{obtain_attestation, open_response, pack_input, ClientError};
use zkk::server::{handle_request, RejectReason, RequestOutcome, ServeError};
use zkk::session::SessionRatchet;

fn b64(data: &[u8]) -> Vec<u8> {
    base64::engine::general_purpose::STANDARD.encode(data).into_bytes()
}

fn sha(parts: &[&[u8]]) -> Vec<u8> {
    let mut hasher = sha2::Sha256::new();
    for p in parts {
        hasher.update(p);
    }
    hasher.finalize().to_vec()
}

fn target_hex(user_id: &[u8], service_id: &[u8], password: &[u8]) -> Vec<u8> {
    hex::encode(sha(&[user_id, password, service_id])).into_bytes()
}

fn packed_input() -> Vec<u8> {
    pack_input(
        &b"1234567890".to_vec(),
        &b"session456".to_vec(),
        &b"password12".to_vec(),
    )
    .unwrap()
}

fn artifact_with_target() -> Vec<u8> {
    let mut artifact = b"allow-list:\n".to_vec();
    artifact.extend_from_slice(&target_hex(b"1234567890", b"session456", b"password12"));
    artifact.extend_from_slice(b"\n");
    artifact
}

#[test]
fn grant_returns_a_decryptable_signed_bundle() {
    let seed = [7u8; 32];
    let secret = [9u8; 32];
    let identity = load_signing_identity(&b64(&secret)).unwrap();
    let mut ratchet = SessionRatchet::new(seed.to_vec());
    let program_id = protocol_program_id();
    let artifact = artifact_with_target();

    let attestation = authenticate_user(&program_id, &packed_input(), &artifact).unwrap();
    assert_eq!(attestation.journal.existence, 1);

    let (private_der, public_der) = generate_rsa_keypair().unwrap();
    let request = Request { public_key: public_der.clone(), attestation };
    let request_bytes = encode_request(&request);

    let outcome = handle_request(&request_bytes, &program_id, &artifact, &identity, &mut ratchet, 1736000000);
    let frame = match outcome {
        RequestOutcome::Reply(frame) => frame,
        other => panic!("expected a reply, got {:?}", other),
    };

    // The prover decrypts and decodes the signed session bundle.
    let signed = open_response(&private_der, &frame).unwrap();
    assert_eq!(signed.bundle.identity_hash, sha(&[b"1234567890", b"session456"]));
    assert_eq!(signed.bundle.timestamp, 1736000000);
    assert_eq!(signed.bundle.ssk, b64(&sha(&[&seed, &secret])));

    // The signature covers the canonical bundle encoding and verifies
    // under the verifier's public key.
    let verifying = ed25519_dalek::SigningKey::from_bytes(&secret).verifying_key();
    let sig = ed25519_dalek::Signature::from_bytes(&signed.signature.as_slice().try_into().unwrap());
    assert!(verifying.verify(&encode_bundle(&signed.bundle), &sig).is_ok());

    // The ciphertext is real RSA: decrypting it directly gives back the
    // canonical signed-response encoding.
    let ciphertext = decode_frame(&frame).unwrap();
    let private_key = rsa::RsaPrivateKey::from_pkcs8_der(&private_der).unwrap();
    let plaintext = private_key.decrypt(rsa::Pkcs1v15Encrypt, &ciphertext).unwrap();
    assert_eq!(plaintext, encode_signed_response(&signed));

    // And the library's decrypt path opens a ciphertext produced by the
    // rsa crate directly.
    let public_key = rsa::RsaPublicKey::from(&private_key);
    let mut rng = rand::rngs::OsRng;
    let cipher2 = public_key.encrypt(&mut rng, rsa::Pkcs1v15Encrypt, plaintext.as_slice()).unwrap();
    let reopened = open_response(&private_der, &encode_frame(&cipher2)).unwrap();
    assert_eq!(reopened.bundle.ssk, signed.bundle.ssk);
    assert_eq!(reopened.signature, signed.signature);

    // A ciphertext that is not RSA at all reports a decrypt failure.
    let garbage_frame = encode_frame(&vec![0u8; 256]);
    match open_response(&private_der, &garbage_frame) {
        Err(e) => assert_eq!(e, ClientError::DecryptFailure),
        Ok(_) => panic!("garbage ciphertext must not open"),
    }
}

#[test]
fn handshake_round_trip_issues_the_expected_bundle() {
    let seed = [5u8; 32];
    let secret = [6u8; 32];
    let identity = load_signing_identity(&b64(&secret)).unwrap();
    let mut ratchet = SessionRatchet::new(seed.to_vec());
    let program_id = protocol_program_id();
    let artifact = artifact_with_target();
    let input = packed_input();

    let signed = zkk::prover::handshake_round_trip(
        &program_id,
        &input,
        &artifact,
        &identity,
        &mut ratchet,
        42,
    )
    .expect("the target hash is present, so the handshake must succeed");
    assert_eq!(signed.bundle.identity_hash, sha(&[b"1234567890", b"session456"]));
    assert_eq!(signed.bundle.ssk, b64(&sha(&[&seed, &secret])));
    assert_eq!(signed.bundle.timestamp, 42);

    // The session key decodes back to exactly the 32-byte ratchet material.
    let decoded = base64::engine::general_purpose::STANDARD
        .decode(&signed.bundle.ssk)
        .unwrap();
    assert_eq!(decoded.len(), 32);
    assert_eq!(decoded, sha(&[&seed, &secret]));

    // The signature covers the canonical bundle encoding.
    let verifying = ed25519_dalek::SigningKey::from_bytes(&secret).verifying_key();
    let sig = ed25519_dalek::Signature::from_bytes(&signed.signature.as_slice().try_into().unwrap());
    assert!(verifying.verify(&encode_bundle(&signed.bundle), &sig).is_ok());
}

#[test]
fn absent_target_is_rejected_without_a_response() {
    let identity = load_signing_identity(&b64(&[9u8; 32])).unwrap();
    let mut ratchet = SessionRatchet::new([7u8; 32].to_vec());
    let program_id = protocol_program_id();
    let artifact = b"an allow-list without the target hash".to_vec();

    let attestation = authenticate_user(&program_id, &packed_input(), &artifact).unwrap();
    assert_eq!(attestation.journal.existence, 0);

    let request = Request { public_key: b"any key".to_vec(), attestation };
    let bytes = encode_request(&request);
    let outcome = handle_request(&bytes, &program_id, &artifact, &identity, &mut ratchet, 1);
    assert!(matches!(outcome, RequestOutcome::Rejected(RejectReason::AbsentTarget)));
}

#[test]
fn stale_artifact_is_rejected_even_with_existence_set() {
    let identity = load_signing_identity(&b64(&[9u8; 32])).unwrap();
    let mut ratchet = SessionRatchet::new([7u8; 32].to_vec());
    let program_id = protocol_program_id();
    let proving_artifact = artifact_with_target();
    let mut fetched_artifact = proving_artifact.clone();
    fetched_artifact.extend_from_slice(b"changed between proving and verifying");

    let attestation = authenticate_user(&program_id, &packed_input(), &proving_artifact).unwrap();
    assert_eq!(attestation.journal.existence, 1);

    let request = Request { public_key: b"any key".to_vec(), attestation };
    let bytes = encode_request(&request);
    let outcome = handle_request(&bytes, &program_id, &fetched_artifact, &identity, &mut ratchet, 1);
    assert!(matches!(outcome, RequestOutcome::Rejected(RejectReason::StaleArtifact)));
}

#[test]
fn malformed_request_bytes_abort_the_connection() {
    let identity = load_signing_identity(&b64(&[9u8; 32])).unwrap();
    let mut ratchet = SessionRatchet::new([7u8; 32].to_vec());
    let program_id = protocol_program_id();
    let artifact = artifact_with_target();

    let attestation = authenticate_user(&program_id, &packed_input(), &artifact).unwrap();
    let request = Request { public_key: b"any key".to_vec(), attestation };
    let bytes = encode_request(&request);
    let truncated = bytes[..bytes.len() - 3].to_vec();

    let outcome = handle_request(&truncated, &program_id, &artifact, &identity, &mut ratchet, 1);
    assert!(matches!(outcome, RequestOutcome::Aborted(ServeError::MalformedRequest)));

    let outcome = handle_request(&Vec::new(), &program_id, &artifact, &identity, &mut ratchet, 1);
    assert!(matches!(outcome, RequestOutcome::Aborted(ServeError::MalformedRequest)));
}

#[test]
fn foreign_program_identity_aborts_the_connection() {
    let identity = load_signing_identity(&b64(&[9u8; 32])).unwrap();
    let mut ratchet = SessionRatchet::new([7u8; 32].to_vec());
    let program_id = protocol_program_id();
    let artifact = artifact_with_target();

    let attestation = authenticate_user(&program_id, &packed_input(), &artifact).unwrap();
    let foreign = Attestation {
        program_id: ProgramId { words: vec![8, 7, 6, 5, 4, 3, 2, 1] },
        journal: attestation.journal,
    };
    let request = Request { public_key: b"any key".to_vec(), attestation: foreign };
    let bytes = encode_request(&request);

    let outcome = handle_request(&bytes, &program_id, &artifact, &identity, &mut ratchet, 1);
    assert!(matches!(outcome, RequestOutcome::Aborted(ServeError::UntrustedAttestation)));
}

#[test]
fn cached_attestation_is_reused_only_if_it_verifies() {
    let program_id = protocol_program_id();
    let artifact = artifact_with_target();
    let input = packed_input();

    let attestation = authenticate_user(&program_id, &input, &artifact).unwrap();
    let cached = Some(encode_attestation(&attestation));
    let reused = obtain_attestation(&cached, &program_id, &input, &artifact).unwrap();
    assert_eq!(encode_attestation(&reused), encode_attestation(&attestation));

    // A cached encoding bound to a foreign identity is discarded and the
    // prover runs afresh.
    let foreign = Attestation {
        program_id: ProgramId { words: vec![8, 7, 6, 5, 4, 3, 2, 1] },
        journal: authenticate_user(&program_id, &input, &artifact).unwrap().journal,
    };
    let cached = Some(encode_attestation(&foreign));
    let regenerated = obtain_attestation(&cached, &program_id, &input, &artifact).unwrap();
    assert_eq!(regenerated.program_id.words, program_id.words);

    // Garbage cache bytes are discarded the same way.
    let cached = Some(b"not an attestation".to_vec());
    let regenerated = obtain_attestation(&cached, &program_id, &input, &artifact).unwrap();
    assert_eq!(regenerated.program_id.words, program_id.words);

    // With no cache and an undersized input, proving refuses.
    assert!(obtain_attestation(&None, &program_id, &b"short".to_vec(), &artifact).is_err());
}
