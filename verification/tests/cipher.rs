use pinaivu_node::cipher::{authenticated, open, seal, seal_with_nonce, wipe, CipherError, NONCE_LEN, TAG_LEN};

#[test]
fn roundtrip() {
    let key = [7u8; 32];
    let pt = b"hello pinaivu";
    let ct = seal(&key, pt);
    assert_ne!(&ct[NONCE_LEN..], pt);
    let got = open(&key, &ct).unwrap();
    assert_eq!(got, pt);
}

#[test]
fn wrong_key_fails() {
    let ct = seal(&[1u8; 32], b"secret");
    assert!(matches!(open(&[2u8; 32], &ct), Err(CipherError::AuthFailed)));
}

#[test]
fn tampered_ciphertext_fails() {
    let key = [3u8; 32];
    let mut ct = seal(&key, b"don't change me");
    let last = ct.len() - 1;
    ct[last] ^= 0x01;
    assert!(matches!(open(&key, &ct), Err(CipherError::AuthFailed)));
}

#[test]
fn short_blob_rejected() {
    assert!(matches!(open(&[0u8; 32], b"too short"), Err(CipherError::TooShort)));
}

#[test]
fn fresh_nonce_per_call() {
    let key = [9u8; 32];
    let a = seal(&key, b"same plaintext");
    let b = seal(&key, b"same plaintext");
    assert_ne!(a, b, "nonce reuse would produce identical ciphertexts");
}

#[test]
fn blob_is_nonce_ciphertext_and_tag() {
    let nonce = [5u8; 12];
    let blob = seal_with_nonce(&[4u8; 32], &nonce, b"abc");
    assert_eq!(blob.len(), NONCE_LEN + 3 + TAG_LEN);
    assert_eq!(blob[..NONCE_LEN], nonce);
}

#[test]
fn known_answer() {
    // The all-zero case of the published AES-256-GCM vectors.
    let blob = seal_with_nonce(&[0u8; 32], &[0u8; 12], &[0u8; 16]);
    let expected: [u8; 32] = [
        0xce, 0xa7, 0x40, 0x3d, 0x4d, 0x60, 0x6b, 0x6e, 0x07, 0x4e, 0xc5, 0xd3, 0xba, 0xf3, 0x9d,
        0x18, 0xd0, 0xd1, 0xc8, 0xa7, 0x99, 0x99, 0x6b, 0xf0, 0x26, 0x5b, 0x98, 0xb5, 0xd4, 0x8a,
        0xb9, 0x19,
    ];
    assert_eq!(blob[NONCE_LEN..], expected);
}

#[test]
fn empty_plaintext_is_sealed() {
    let key = [8u8; 32];
    let blob = seal(&key, b"");
    assert_eq!(blob.len(), NONCE_LEN + TAG_LEN);
    assert_eq!(open(&key, &blob).unwrap(), Vec::<u8>::new());
}

#[test]
fn nonce_without_a_tag_fails_authentication() {
    assert_eq!(open(&[0u8; 32], &[0u8; 12]), Err(CipherError::AuthFailed));
    assert_eq!(open(&[0u8; 32], &[0u8; 11]), Err(CipherError::TooShort));
}

#[test]
fn tampered_nonce_fails() {
    let key = [3u8; 32];
    let mut ct = seal(&key, b"payload");
    ct[0] ^= 0x80;
    assert_eq!(open(&key, &ct), Err(CipherError::AuthFailed));
}

#[test]
fn outside_failure_is_failed_authentication() {
    assert_eq!(authenticated(Err(aes_gcm::Error)), Err(CipherError::AuthFailed));
    assert_eq!(authenticated(Ok(vec![1, 2])), Ok(vec![1, 2]));
}

#[test]
fn wiped_key_is_gone() {
    let mut key = Some([0xAAu8; 32]);
    let left = wipe(&mut key);
    assert_eq!(key, None);
    assert_eq!(left, Some([0u8; 32]));
    assert_eq!(wipe(&mut key), None);
}

#[test]
fn cipher_errors_in_words() {
    assert_eq!(CipherError::TooShort.message(), "ciphertext too short to contain a nonce");
    assert_eq!(
        CipherError::AuthFailed.message(),
        "AEAD authentication failed (wrong key or tampered ciphertext)"
    );
}
