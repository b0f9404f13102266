use blackout::storage::{
    backup_file_name, calculate_sha256, new_snapshot_record, open, seal, seal_with, CryptoError,
};

#[test]
fn open_gives_back_what_seal_wrote() {
    let content = b"the vault content".to_vec();
    let sealed = seal(&content, "correct horse").unwrap();
    assert_eq!(sealed.salt.len(), 16);
    assert_eq!(sealed.nonce.len(), 24);
    assert_eq!(sealed.ciphertext.len(), content.len() + 16);
    assert_eq!(open(&sealed, "correct horse").unwrap(), content);
}

#[test]
fn wrong_password_does_not_open() {
    let sealed = seal(b"data", "right").unwrap();
    assert!(matches!(open(&sealed, "wrong"), Err(CryptoError::DecryptionFailed)));
}

#[test]
fn tampered_ciphertext_does_not_open() {
    let mut sealed = seal(b"data", "pw").unwrap();
    sealed.ciphertext[0] ^= 1;
    assert!(matches!(open(&sealed, "pw"), Err(CryptoError::DecryptionFailed)));
}

#[test]
fn seal_with_fixed_salt_and_nonce_is_deterministic() {
    let a = seal_with(b"abc", "pw", vec![1u8; 16], vec![2u8; 24]).unwrap();
    let b = seal_with(b"abc", "pw", vec![1u8; 16], vec![2u8; 24]).unwrap();
    assert_eq!(a.ciphertext, b.ciphertext);
    assert_eq!(open(&a, "pw").unwrap(), b"abc".to_vec());
}

#[test]
fn seal_with_short_salt_is_a_key_derivation_error() {
    match seal_with(b"abc", "pw", vec![1u8; 3], vec![2u8; 24]) {
        Err(CryptoError::KeyDerivation(msg)) => assert!(msg.starts_with("argon2 error: ")),
        _ => panic!("expected a key derivation error"),
    }
}

#[test]
fn rotation_keeps_the_content_under_the_new_password() {
    let sealed = seal(b"entries", "old").unwrap();
    let content = open(&sealed, "old").unwrap();
    let resealed = seal(&content, "new").unwrap();
    assert_eq!(open(&resealed, "new").unwrap(), b"entries".to_vec());
    assert!(open(&resealed, "old").is_err());
    assert!(open(&sealed, "bad").is_err());
}

#[test]
fn sha256_of_abc() {
    assert_eq!(
        calculate_sha256(b"abc"),
        "ba7816bf8f01cfea414140de5dae2223b00361a396177a9cb410ff61f20015ad"
    );
    assert_eq!(calculate_sha256(b"").len(), 64);
}

#[test]
fn backup_names() {
    assert_eq!(backup_file_name(0), "v0.blackout.bak");
    assert_eq!(backup_file_name(42), "v42.blackout.bak");
    assert_eq!(backup_file_name(4294967295), "v4294967295.blackout.bak");
}

#[test]
fn snapshot_record_keeps_the_given_fields() {
    let r = new_snapshot_record(3, "abc".to_string(), "Add entry: x", "/tmp/v3.blackout.bak".to_string());
    assert_eq!(r.version, 3);
    assert_eq!(r.checksum, "abc");
    assert_eq!(r.reason, "Add entry: x");
    assert_eq!(r.file_ref, Some("/tmp/v3.blackout.bak".to_string()));
}
