use sha2::Digest;

use zkk::attest::{
    attest_round_trip, attestation_program, authenticate_user, decode_journal,
    protocol_program_id, verify_attestation, ProgramId,
};
use zkk::prover::pack_input;

fn sha(parts: &[&[u8]]) -> Vec<u8> {
    let mut hasher = sha2::Sha256::new();
    for p in parts {
        hasher.update(p);
    }
    hasher.finalize().to_vec()
}

fn target_hex(user_id: &[u8], service_id: &[u8], password: &[u8]) -> Vec<u8> {
    hex::encode(sha(&[user_id, password, service_id])).into_bytes()
}

#[test]
fn pack_input_lays_fields_out_at_fixed_offsets() {
    let packed = pack_input(
        &b"1234567890".to_vec(),
        &b"session456".to_vec(),
        &b"password12".to_vec(),
    )
    .unwrap();
    assert_eq!(packed, b"1234567890\0session456\0password12".to_vec());
    assert_eq!(packed.len(), 32);
}

#[test]
fn pack_input_refuses_misshapen_fields() {
    assert!(pack_input(&b"short".to_vec(), &b"session456".to_vec(), &b"password12".to_vec())
        .is_none());
    assert!(pack_input(&b"1234567890".to_vec(), &b"s".to_vec(), &b"password12".to_vec())
        .is_none());
    assert!(pack_input(&b"1234567890".to_vec(), &b"session456".to_vec(), &b"tiny".to_vec())
        .is_none());
    // A 7-byte password is the shortest that reaches the 29-byte minimum.
    let packed = pack_input(
        &b"1234567890".to_vec(),
        &b"session456".to_vec(),
        &b"passwd7".to_vec(),
    )
    .unwrap();
    assert_eq!(packed.len(), 29);
}

#[test]
fn program_refuses_undersized_input() {
    let input = b"0123456789012345678901234567".to_vec(); // 28 bytes
    assert!(attestation_program(&input, &b"whatever".to_vec()).is_none());
    let input = b"01234567890123456789012345678".to_vec(); // 29 bytes
    assert!(attestation_program(&input, &b"whatever".to_vec()).is_some());
}

#[test]
fn journal_existence_set_when_target_hash_present() {
    let (user_id, service_id, password) = (b"1234567890", b"session456", b"password12");
    let input = pack_input(&user_id.to_vec(), &service_id.to_vec(), &password.to_vec()).unwrap();
    let mut artifact = b"allow-list: ".to_vec();
    artifact.extend_from_slice(&target_hex(user_id, service_id, password));
    artifact.extend_from_slice(b"\nmore entries\n");

    let journal = attestation_program(&input, &artifact).unwrap();
    assert_eq!(journal.existence, 1);
    assert_eq!(journal.reference_hash, sha(&[&artifact]));
    assert_eq!(journal.identity_hash, sha(&[user_id, service_id]));
    assert_eq!(journal.password_hash, sha(&[password, service_id]));
}

#[test]
fn journal_existence_clear_when_target_hash_absent() {
    let (user_id, service_id, password) = (b"1234567890", b"session456", b"password12");
    let input = pack_input(&user_id.to_vec(), &service_id.to_vec(), &password.to_vec()).unwrap();
    let artifact = b"nothing that matches the target hash".to_vec();

    let journal = attestation_program(&input, &artifact).unwrap();
    assert_eq!(journal.existence, 0);
    assert_eq!(journal.reference_hash, sha(&[&artifact]));
}

#[test]
fn prove_verify_decode_round_trips_to_direct_journal() {
    let (user_id, service_id, password) = (b"1234567890", b"session456", b"password12");
    let input = pack_input(&user_id.to_vec(), &service_id.to_vec(), &password.to_vec()).unwrap();
    let mut artifact = b"entries: ".to_vec();
    artifact.extend_from_slice(&target_hex(user_id, service_id, password));

    let program_id = protocol_program_id();
    let journal = attest_round_trip(&program_id, &input, &artifact).unwrap();
    let direct = attestation_program(&input, &artifact).unwrap();
    assert_eq!(journal.existence, direct.existence);
    assert_eq!(journal.reference_hash, direct.reference_hash);
    assert_eq!(journal.identity_hash, direct.identity_hash);
    assert_eq!(journal.password_hash, direct.password_hash);
    assert_eq!(journal.existence, 1);
    assert_eq!(journal.identity_hash, sha(&[user_id, service_id]));
}

#[test]
fn verify_rejects_foreign_program_identity() {
    let input = pack_input(
        &b"1234567890".to_vec(),
        &b"session456".to_vec(),
        &b"password12".to_vec(),
    )
    .unwrap();
    let program_id = protocol_program_id();
    let attestation = authenticate_user(&program_id, &input, &b"artifact".to_vec()).unwrap();

    assert!(verify_attestation(&attestation, &program_id).is_ok());

    let other = ProgramId { words: vec![1, 2, 3, 4, 5, 6, 7, 8] };
    assert!(verify_attestation(&attestation, &other).is_err());

    let journal = decode_journal(&attestation).unwrap();
    assert_eq!(journal.existence, 0);
}

#[test]
fn prove_refuses_undersized_input() {
    let program_id = protocol_program_id();
    let short = b"too short".to_vec();
    assert!(authenticate_user(&program_id, &short, &b"artifact".to_vec()).is_err());
}
