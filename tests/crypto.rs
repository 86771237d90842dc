use aes_gcm::aead::{Aead, KeyInit};
use aes_gcm::{Aes256Gcm, Nonce};
use base64::engine::general_purpose::STANDARD as BASE64;
use base64::Engine;
use nanomail::crypto::{
    decrypt_token, encrypt_token, is_encrypted, CryptoError, ENCRYPTED_PREFIX, NONCE_SIZE,
};
use nanomail::machine_key::{derive_encryption_key, FIXED_SALT, KEY_SIZE};

const KEY: [u8; 32] = [7u8; 32];

#[test]
fn test_encrypt_decrypt_roundtrip() {
    let plain = "test_access_token_12345";

    let encrypted = encrypt_token(plain, &KEY).unwrap();
    println!("{}...{}", &encrypted[..20], &encrypted[encrypted.len() - 10..]);

    assert!(encrypted.starts_with(ENCRYPTED_PREFIX));
    assert!(encrypted.len() > ENCRYPTED_PREFIX.len() + NONCE_SIZE);

    let decrypted = decrypt_token(&encrypted, &KEY).unwrap();
    assert_eq!(plain, decrypted);
}

#[test]
fn test_encrypt_different_nonce() {
    let plain = "same_token";

    let encrypted1 = encrypt_token(plain, &KEY).unwrap();
    let encrypted2 = encrypt_token(plain, &KEY).unwrap();

    assert_ne!(encrypted1, encrypted2);

    assert_eq!(decrypt_token(&encrypted1, &KEY).unwrap(), plain);
    assert_eq!(decrypt_token(&encrypted2, &KEY).unwrap(), plain);
}

#[test]
fn test_is_encrypted() {
    assert!(is_encrypted("encrypted:SGVsbG8="));
    assert!(!is_encrypted("plain_text"));
    assert!(!is_encrypted(""));
}

#[test]
fn test_decrypt_invalid_format() {
    let result = decrypt_token("SGVsbG8gV29ybGQ=", &KEY);
    assert!(result.is_err());
    assert!(result.unwrap_err().to_string().contains("缺少 'encrypted:' 前缀"));
}

#[test]
fn test_decrypt_invalid_base64() {
    let result = decrypt_token("encrypted:!!!invalid@@@", &KEY);
    assert!(result.is_err());
    assert!(result.unwrap_err().to_string().contains("Base64"));
}

#[test]
fn test_decrypt_too_short() {
    let short_data = BASE64.encode(b"short");
    let result = decrypt_token(&format!("encrypted:{}", short_data), &KEY);
    assert!(result.is_err());
    assert!(result.unwrap_err().to_string().contains("长度不足"));
}

#[test]
fn test_decrypt_corrupted_data() {
    let plain = "valid_token";
    let mut encrypted = encrypt_token(plain, &KEY).unwrap();

    let last = encrypted.pop().unwrap();
    encrypted.push(if last == 'X' { 'Y' } else { 'X' });

    let result = decrypt_token(&encrypted, &KEY);
    assert!(result.is_err());
    assert!(result.unwrap_err().to_string().contains("解密失败"));
}

#[test]
fn test_encrypt_unicode() {
    let plain = "测试Token🔒";
    let encrypted = encrypt_token(plain, &KEY).unwrap();
    let decrypted = decrypt_token(&encrypted, &KEY).unwrap();
    assert_eq!(plain, decrypted);
}

#[test]
fn round_trip_empty_string() {
    let encrypted = encrypt_token("", &KEY).unwrap();
    assert_eq!(decrypt_token(&encrypted, &KEY).unwrap(), "");
}

#[test]
fn payload_is_nonce_ciphertext_and_tag() {
    let plain = "abc";
    let encrypted = encrypt_token(plain, &KEY).unwrap();
    let payload = BASE64.decode(&encrypted[ENCRYPTED_PREFIX.len()..]).unwrap();
    assert_eq!(payload.len(), NONCE_SIZE + plain.len() + 16);
    assert_ne!(&payload[NONCE_SIZE..NONCE_SIZE + plain.len()], plain.as_bytes());
}

#[test]
fn tampering_any_payload_byte_fails() {
    let encrypted = encrypt_token("secret-refresh-token", &KEY).unwrap();
    let payload = BASE64.decode(&encrypted[ENCRYPTED_PREFIX.len()..]).unwrap();
    for i in 0..payload.len() {
        let mut bytes = payload.clone();
        bytes[i] ^= 0x01;
        let tampered = format!("encrypted:{}", BASE64.encode(&bytes));
        assert_eq!(decrypt_token(&tampered, &KEY), Err(CryptoError::AuthenticationFailed));
    }
}

#[test]
fn wrong_key_fails_authentication() {
    let encrypted = encrypt_token("token", &KEY).unwrap();
    let other = [8u8; 32];
    assert_eq!(decrypt_token(&encrypted, &other), Err(CryptoError::AuthenticationFailed));
}

#[test]
fn decrypt_errors_are_distinguishable() {
    assert_eq!(decrypt_token("SGVsbG8=", &KEY), Err(CryptoError::MissingPrefix));
    assert_eq!(decrypt_token("encrypted:!!!", &KEY), Err(CryptoError::InvalidBase64));
    let eleven = format!("encrypted:{}", BASE64.encode([0u8; 11]));
    assert_eq!(decrypt_token(&eleven, &KEY), Err(CryptoError::TooShort));
    let twelve = format!("encrypted:{}", BASE64.encode([0u8; 12]));
    assert_eq!(decrypt_token(&twelve, &KEY), Err(CryptoError::AuthenticationFailed));
}

#[test]
fn non_utf8_plaintext_is_reported() {
    let nonce = [3u8; 12];
    let cipher = Aes256Gcm::new(&KEY.into());
    let sealed = cipher.encrypt(Nonce::from_slice(&nonce), &[0xffu8, 0xfe][..]).unwrap();
    let mut payload = nonce.to_vec();
    payload.extend_from_slice(&sealed);
    let token = format!("encrypted:{}", BASE64.encode(&payload));
    assert_eq!(decrypt_token(&token, &KEY), Err(CryptoError::InvalidUtf8));
}

#[test]
fn error_messages_name_the_step() {
    assert!(CryptoError::AuthenticationFailed.to_string().contains("解密失败"));
    assert!(CryptoError::InvalidUtf8.to_string().contains("UTF-8"));
    assert!(CryptoError::KeyDerivation.to_string().contains("密钥"));
}

#[test]
fn test_derive_encryption_key() {
    let key1 = derive_encryption_key("0b8c5f2e-1d3a-4c7b-9e6f-112233445566").unwrap();
    let key2 = derive_encryption_key("0b8c5f2e-1d3a-4c7b-9e6f-112233445566").unwrap();

    assert_eq!(key1, key2);
    assert_eq!(key1.len(), KEY_SIZE);
    println!("{:?}...{:?}", &key1[..4], &key1[28..]);
}

#[test]
fn different_machines_get_different_keys() {
    let a = derive_encryption_key("machine-a").unwrap();
    let b = derive_encryption_key("machine-b").unwrap();
    assert_ne!(a, b);
    let encrypted = encrypt_token("token", &a).unwrap();
    assert_eq!(decrypt_token(&encrypted, &b), Err(CryptoError::AuthenticationFailed));
    assert_eq!(decrypt_token(&encrypted, &a).unwrap(), "token");
}

#[test]
fn test_fixed_salt_consistency() {
    assert_eq!(FIXED_SALT, b"NanoMail.v1.2025");
    assert_eq!(FIXED_SALT.len(), 16);
}

#[test]
fn key_derivation_succeeds_for_any_identifier() {
    assert_eq!(derive_encryption_key("").unwrap().len(), KEY_SIZE);
}
