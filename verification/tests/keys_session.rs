use base64::Engine;
use ed25519_dalek::Signer;
use ed25519_dalek::Verifier;
use sha2::Digest;

use zkk::keys::{load_signing_identity, private_sign};
use zkk::session::SessionRatchet;

fn b64(data: &[u8]) -> Vec<u8> {
    base64::engine::general_purpose::STANDARD.encode(data).into_bytes()
}

fn sha(parts: &[&[u8]]) -> Vec<u8> {
    let mut hasher = sha2::Sha256::new();
    for p in parts {
        hasher.update(p);
    }
    hasher.finalize().to_vec()
}

#[test]
fn signing_identity_loads_from_canonical_base64() {
    let secret = [9u8; 32];
    let identity = load_signing_identity(&b64(&secret)).unwrap();
    let message = b"sign me".to_vec();
    let signature = private_sign(&identity, &message);

    let expected = ed25519_dalek::SigningKey::from_bytes(&secret)
        .sign(&message)
        .to_bytes()
        .to_vec();
    assert_eq!(signature, expected);
}

#[test]
fn signatures_verify_under_the_public_half() {
    let secret = [42u8; 32];
    let identity = load_signing_identity(&b64(&secret)).unwrap();
    let message = b"the canonical bundle encoding".to_vec();
    let signature = private_sign(&identity, &message);

    let verifying = ed25519_dalek::SigningKey::from_bytes(&secret).verifying_key();
    let sig = ed25519_dalek::Signature::from_bytes(&signature.as_slice().try_into().unwrap());
    assert!(verifying.verify(&message, &sig).is_ok());
}

#[test]
fn signing_identity_rejects_bad_secrets() {
    assert!(load_signing_identity(&b"!!! not base64 !!!".to_vec()).is_err());
    assert!(load_signing_identity(&b64(&[1u8; 16])).is_err());
    assert!(load_signing_identity(&b64(&[1u8; 33])).is_err());
    assert!(load_signing_identity(&b64(&[1u8; 32])).is_ok());
}

#[test]
fn ratchet_derives_the_hash_chain() {
    let seed = [7u8; 32];
    let secret = [9u8; 32];
    let identity = load_signing_identity(&b64(&secret)).unwrap();
    let mut ratchet = SessionRatchet::new(seed.to_vec());

    let first = ratchet.gen_session_key(&identity);
    let chain1 = sha(&[&seed, &secret]);
    assert_eq!(first, b64(&chain1));

    // The returned key decodes back to exactly the 32-byte material.
    let decoded = base64::engine::general_purpose::STANDARD.decode(&first).unwrap();
    assert_eq!(decoded.len(), 32);
    assert_eq!(decoded, chain1);

    let second = ratchet.gen_session_key(&identity);
    let chain2 = sha(&[&chain1, &secret]);
    assert_eq!(second, b64(&chain2));
}

#[test]
fn ratchet_never_repeats_across_successive_calls() {
    let identity = load_signing_identity(&b64(&[3u8; 32])).unwrap();
    let mut ratchet = SessionRatchet::new([0u8; 32].to_vec());
    let mut seen: Vec<Vec<u8>> = Vec::new();
    for _ in 0..16 {
        let ssk = ratchet.gen_session_key(&identity);
        assert!(!seen.contains(&ssk));
        seen.push(ssk);
    }
}
