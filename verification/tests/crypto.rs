use cross_kvm::crypto::{CryptoError, PacketCipher};

#[test]
fn test_crypto_roundtrip() {
    let cipher = PacketCipher::from_passphrase("my-secure-password");
    let message = b"Hello, secure cross-kvm stream!";

    let encrypted = cipher.encrypt(message).expect("encryption should succeed");
    assert_ne!(encrypted.as_slice(), message.as_slice());

    let decrypted = cipher.decrypt(&encrypted).expect("decryption should succeed");
    assert_eq!(decrypted.as_slice(), message.as_slice());
}

#[test]
fn test_wrong_passphrase_fails() {
    let cipher1 = PacketCipher::from_passphrase("password-1");
    let cipher2 = PacketCipher::from_passphrase("password-2");

    let encrypted = cipher1.encrypt(b"secret").unwrap();
    let result = cipher2.decrypt(&encrypted);
    assert!(result.is_err());
}

#[test]
fn encrypted_payload_layout() {
    let cipher = PacketCipher::from_passphrase("layout");
    let out = cipher.encrypt(b"abc").unwrap();
    // 12-byte nonce, 3 bytes of ciphertext, 16-byte tag
    assert_eq!(out.len(), 3 + 28);
    let empty = cipher.encrypt(b"").unwrap();
    assert_eq!(empty.len(), 28);
    assert_eq!(cipher.decrypt(&empty).unwrap(), Vec::<u8>::new());
}

#[test]
fn same_passphrase_interoperates_and_tampering_fails() {
    let a = PacketCipher::from_passphrase("shared");
    let b = PacketCipher::from_passphrase("shared");
    let mut out = a.encrypt(b"move").unwrap();
    assert_eq!(b.decrypt(&out).unwrap(), b"move".to_vec());
    let last = out.len() - 1;
    out[last] ^= 1;
    assert_eq!(b.decrypt(&out), Err(CryptoError::DecryptionError));
}

#[test]
fn short_payload_is_invalid() {
    let cipher = PacketCipher::from_passphrase("x");
    assert_eq!(cipher.decrypt(&[0u8; 11]), Err(CryptoError::InvalidData));
    // a nonce with no tag is refused by the cipher
    assert_eq!(cipher.decrypt(&[0u8; 12]), Err(CryptoError::DecryptionError));
}

#[test]
fn nonces_differ_between_encryptions() {
    let cipher = PacketCipher::from_passphrase("n");
    let a = cipher.encrypt(b"same").unwrap();
    let b = cipher.encrypt(b"same").unwrap();
    assert_ne!(a[..12], b[..12]);
    assert_eq!(cipher.decrypt(&a).unwrap(), cipher.decrypt(&b).unwrap());
}

#[test]
fn crypto_error_messages() {
    assert_eq!(CryptoError::EncryptionError.message(), "Encryption failed");
    assert_eq!(CryptoError::DecryptionError.message(), "Decryption failed / auth tag mismatch");
    assert_eq!(CryptoError::InvalidData.message(), "Invalid key or nonce");
}
