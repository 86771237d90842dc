//! At-rest token encryption: `encrypted:` + Base64(nonce ‖ AES-256-GCM ciphertext ‖ tag).

use vstd::prelude::*;
use vstd::utf8::{decode_utf8, encode_utf8, valid_utf8};
use aes_gcm::aead::{Aead, AeadCore, KeyInit, OsRng};
use aes_gcm::{Aes256Gcm, Nonce};
use base64::engine::general_purpose::STANDARD as BASE64;
use base64::Engine;
use crate::text::{has_prefix, starts_with, suffix_from};

verus! {

broadcast use vstd::utf8::encode_utf8_valid_utf8, vstd::utf8::encode_utf8_decode_utf8;

/// Marker that every encrypted secret begins with.
pub const ENCRYPTED_PREFIX: &'static str = "encrypted:";

/// Number of characters in [`ENCRYPTED_PREFIX`].
pub const ENCRYPTED_PREFIX_LEN: usize = 10;

/// AES-GCM nonce length in bytes (96 bits).
pub const NONCE_SIZE: usize = 12;

/// AES-GCM authentication tag length in bytes.
pub const TAG_SIZE: usize = 16;

/// Largest plaintext, in bytes, that AES-GCM accepts.
pub const MAX_PLAINTEXT_BYTES: u64 = 68719476736;

/// Why an encryption, a decryption or a key derivation failed.
#[derive(Debug, Clone, Copy, PartialEq, Eq, Structural)]
pub enum CryptoError {
    /// The machine identifier could not be turned into a key.
    KeyDerivation,
    /// The plaintext is longer than AES-GCM allows.
    PlaintextTooLong,
    /// The text does not start with `encrypted:`.
    MissingPrefix,
    /// The text after the prefix is not canonical padded Base64.
    InvalidBase64,
    /// The decoded payload has no room for a nonce.
    TooShort,
    /// The authentication tag does not match: wrong key or corrupted data.
    AuthenticationFailed,
    /// The decrypted bytes are not UTF-8.
    InvalidUtf8,
}

/// Description of each [`CryptoError`].
pub const MSG_KEY_DERIVATION: &'static str = "无法派生加密密钥";
pub const MSG_PLAINTEXT_TOO_LONG: &'static str = "AES-GCM 加密失败：明文过长";
pub const MSG_MISSING_PREFIX: &'static str = "加密数据格式错误：缺少 'encrypted:' 前缀";
pub const MSG_INVALID_BASE64: &'static str = "Base64 解码失败";
pub const MSG_TOO_SHORT: &'static str = "加密数据长度不足（需要至少 12 字节）";
pub const MSG_AUTHENTICATION_FAILED: &'static str = "AES-GCM 解密失败（可能密钥错误或数据损坏）";
pub const MSG_INVALID_UTF8: &'static str = "解密后的数据不是有效的 UTF-8 字符串";

impl CryptoError {
    /// The description of this error.
    pub open spec fn text(&self) -> Seq<char> {
        match self {
            CryptoError::KeyDerivation => MSG_KEY_DERIVATION@,
            CryptoError::PlaintextTooLong => MSG_PLAINTEXT_TOO_LONG@,
            CryptoError::MissingPrefix => MSG_MISSING_PREFIX@,
            CryptoError::InvalidBase64 => MSG_INVALID_BASE64@,
            CryptoError::TooShort => MSG_TOO_SHORT@,
            CryptoError::AuthenticationFailed => MSG_AUTHENTICATION_FAILED@,
            CryptoError::InvalidUtf8 => MSG_INVALID_UTF8@,
        }
    }

    /// A human-readable description that names the failed step.
    pub fn to_string(&self) -> (r: String)
        ensures
            r@ == self.text(),
    {
        match self {
            CryptoError::KeyDerivation => String::from_str(MSG_KEY_DERIVATION),
            CryptoError::PlaintextTooLong => String::from_str(MSG_PLAINTEXT_TOO_LONG),
            CryptoError::MissingPrefix => String::from_str(MSG_MISSING_PREFIX),
            CryptoError::InvalidBase64 => String::from_str(MSG_INVALID_BASE64),
            CryptoError::TooShort => String::from_str(MSG_TOO_SHORT),
            CryptoError::AuthenticationFailed => String::from_str(MSG_AUTHENTICATION_FAILED),
            CryptoError::InvalidUtf8 => String::from_str(MSG_INVALID_UTF8),
        }
    }
}

/// What `Aes256Gcm::encrypt` returns for a key, a nonce and a plaintext.
pub uninterp spec fn gcm_seal(key: Seq<u8>, nonce: Seq<u8>, plain: Seq<u8>) -> Seq<u8>;

/// What `Aes256Gcm::decrypt` returns for a key, a nonce and a ciphertext with its tag.
pub uninterp spec fn gcm_open(key: Seq<u8>, nonce: Seq<u8>, sealed: Seq<u8>) -> Option<Seq<u8>>;

/// What Base64 encoding (standard alphabet, padded) gives for some bytes.
pub uninterp spec fn base64_of(bytes: Seq<u8>) -> Seq<char>;

/// What Base64 decoding (standard alphabet, canonical padding) gives for a text.
pub uninterp spec fn base64_decoded(text: Seq<char>) -> Option<Seq<u8>>;

pub open spec fn opt_bytes(r: Option<Vec<u8>>) -> Option<Seq<u8>> {
    match r {
        Some(v) => Some(v@),
        None => None,
    }
}

/// Relies on aes_gcm's `Aes256Gcm::generate_nonce` with `OsRng`: a fresh random 96-bit nonce.
#[verifier::external_body]
fn random_nonce() -> (r: Vec<u8>)
    ensures
        r@.len() == NONCE_SIZE,
{
    Aes256Gcm::generate_nonce(&mut OsRng).to_vec()
}

/// Relies on aes_gcm's `Aes256Gcm::encrypt`: it fails only above `P_MAX` bytes, appends a
/// 16-byte tag, and `decrypt` under the same key and nonce gives the plaintext back.
#[verifier::external_body]
fn gcm_seal_bytes(key: &[u8; 32], nonce: &Vec<u8>, plain: &[u8]) -> (r: Vec<u8>)
    requires
        nonce@.len() == NONCE_SIZE,
        plain@.len() <= MAX_PLAINTEXT_BYTES,
    ensures
        r@ == gcm_seal(key@, nonce@, plain@),
        r@.len() == plain@.len() + TAG_SIZE,
        gcm_open(key@, nonce@, r@) == Some(plain@),
{
    let cipher = Aes256Gcm::new(&(*key).into());
    cipher.encrypt(Nonce::from_slice(nonce), plain).unwrap()
}

/// Relies on aes_gcm's `Aes256Gcm::decrypt`: `None` when the tag check fails; on success the
/// tag is removed, and sealing the plaintext again under the same key and nonce gives back
/// exactly `sealed` (the tag matched the one computed over the same ciphertext).
#[verifier::external_body]
fn gcm_open_bytes(key: &[u8; 32], nonce: &Vec<u8>, sealed: &Vec<u8>) -> (r: Option<Vec<u8>>)
    requires
        nonce@.len() == NONCE_SIZE,
    ensures
        opt_bytes(r) == gcm_open(key@, nonce@, sealed@),
        r matches Some(p) ==> p@.len() + TAG_SIZE == sealed@.len(),
        r matches Some(p) ==> (p@.len() <= MAX_PLAINTEXT_BYTES ==> gcm_seal(key@, nonce@, p@) == sealed@),
{
    let cipher = Aes256Gcm::new(&(*key).into());
    cipher.decrypt(Nonce::from_slice(nonce), sealed.as_slice()).ok()
}

/// Relies on base64's `STANDARD.encode`; `STANDARD.decode` of its output gives the bytes back.
#[verifier::external_body]
fn base64_encode(bytes: &Vec<u8>) -> (r: String)
    ensures
        r@ == base64_of(bytes@),
        base64_decoded(r@) == Some(bytes@),
{
    BASE64.encode(bytes)
}

/// Relies on base64's `STANDARD.decode`: `None` for text that is not canonical padded Base64.
#[verifier::external_body]
fn base64_decode(text: &str) -> (r: Option<Vec<u8>>)
    ensures
        opt_bytes(r) == base64_decoded(text@),
{
    BASE64.decode(text).ok()
}

/// Relies on `String::from_utf8`: it succeeds exactly on valid UTF-8 and keeps the characters.
#[verifier::external_body]
fn string_from_utf8(bytes: Vec<u8>) -> (r: Option<String>)
    ensures
        r is Some <==> valid_utf8(bytes@),
        r matches Some(s) ==> s@ == decode_utf8(bytes@),
{
    String::from_utf8(bytes).ok()
}

/// The text after the `encrypted:` prefix.
pub open spec fn payload_text(token: Seq<char>) -> Seq<char> {
    token.skip(ENCRYPTED_PREFIX_LEN as int)
}

/// The outcome of decrypting `token` under `key`, step by step: prefix, Base64, length,
/// authenticated decryption, UTF-8.
pub open spec fn token_plaintext(key: Seq<u8>, token: Seq<char>) -> Result<Seq<char>, CryptoError> {
    if !has_prefix(token, ENCRYPTED_PREFIX@) {
        Err(CryptoError::MissingPrefix)
    } else {
        match base64_decoded(payload_text(token)) {
            None => Err(CryptoError::InvalidBase64),
            Some(v) => if v.len() < NONCE_SIZE {
                Err(CryptoError::TooShort)
            } else {
                match gcm_open(key, v.take(NONCE_SIZE as int), v.skip(NONCE_SIZE as int)) {
                    None => Err(CryptoError::AuthenticationFailed),
                    Some(p) => if valid_utf8(p) {
                        Ok(decode_utf8(p))
                    } else {
                        Err(CryptoError::InvalidUtf8)
                    },
                }
            },
        }
    }
}

/// `token` is a correct encryption of `plain` under `key` with `nonce`: the prefix, then
/// Base64 of the nonce followed by the sealed UTF-8 bytes of `plain` (ciphertext and 16-byte
/// tag), so the decoded payload holds 12 + n + 16 bytes for n plaintext bytes.
pub open spec fn encrypts_with(key: Seq<u8>, nonce: Seq<u8>, plain: Seq<char>, token: Seq<char>) -> bool {
    &&& nonce.len() == NONCE_SIZE
    &&& has_prefix(token, ENCRYPTED_PREFIX@)
    &&& base64_decoded(payload_text(token)) == Some(nonce + gcm_seal(key, nonce, encode_utf8(plain)))
    &&& gcm_open(key, nonce, gcm_seal(key, nonce, encode_utf8(plain))) == Some(encode_utf8(plain))
    &&& gcm_seal(key, nonce, encode_utf8(plain)).len() == encode_utf8(plain).len() + TAG_SIZE
}

/// `token` is a correct encryption of `plain` under `key` with some nonce.
pub open spec fn encrypts_to(key: Seq<u8>, plain: Seq<char>, token: Seq<char>) -> bool {
    exists|nonce: Seq<u8>| encrypts_with(key, nonce, plain, token)
}

/// The result of a decryption as plain values.
pub open spec fn result_text(r: Result<String, CryptoError>) -> Result<Seq<char>, CryptoError> {
    match r {
        Ok(s) => Ok(s@),
        Err(e) => Err(e),
    }
}

/// Whether `s` carries the `encrypted:` prefix.
pub fn is_encrypted(s: &str) -> (r: bool)
    ensures
        r == has_prefix(s@, ENCRYPTED_PREFIX@),
{
    starts_with(s, ENCRYPTED_PREFIX)
}

/// Encrypts `plain` under `key` with a fresh random nonce.
pub fn encrypt_token(plain: &str, key: &[u8; 32]) -> (r: Result<String, CryptoError>)
    ensures
        r is Err <==> encode_utf8(plain@).len() > MAX_PLAINTEXT_BYTES,
        r matches Err(e) ==> e == CryptoError::PlaintextTooLong,
        r matches Ok(t) ==> encrypts_to(key@, plain@, t@),
{
    let bytes = plain.as_bytes();
    if bytes.len() as u64 > MAX_PLAINTEXT_BYTES {
        return Err(CryptoError::PlaintextTooLong);
    }
    let nonce = random_nonce();
    let mut sealed = gcm_seal_bytes(key, &nonce, bytes);
    let mut combined = nonce.clone();
    combined.append(&mut sealed);
    let encoded = base64_encode(&combined);
    let mut out = String::from_str(ENCRYPTED_PREFIX);
    out.append(encoded.as_str());
    proof {
        reveal_strlit("encrypted:");
        assert(out@.subrange(0, ENCRYPTED_PREFIX@.len() as int) =~= ENCRYPTED_PREFIX@);
        assert(payload_text(out@) =~= encoded@);
        assert(encrypts_with(key@, nonce@, plain@, out@));
    }
    Ok(out)
}

/// What decryption promises: the step-by-step outcome, and a plaintext only when the token
/// is a genuine encryption of it.
pub open spec fn decrypts_as(key: Seq<u8>, token: Seq<char>, r: Result<Seq<char>, CryptoError>) -> bool {
    &&& r == token_plaintext(key, token)
    &&& r matches Ok(p) ==> (encode_utf8(p).len() <= MAX_PLAINTEXT_BYTES ==> encrypts_to(key, p, token))
}

/// Decrypts an `encrypted:` token under `key`; each failing step has its own error, and a
/// returned plaintext is always one that the token is a genuine encryption of.
pub fn decrypt_token(encrypted: &str, key: &[u8; 32]) -> (r: Result<String, CryptoError>)
    ensures
        decrypts_as(key@, encrypted@, result_text(r)),
{
    proof {
        reveal_strlit("encrypted:");
    }
    if !starts_with(encrypted, ENCRYPTED_PREFIX) {
        return Err(CryptoError::MissingPrefix);
    }
    let body = suffix_from(encrypted, ENCRYPTED_PREFIX_LEN);
    assert(body@ =~= payload_text(encrypted@));
    let mut combined = match base64_decode(body.as_str()) {
        None => {
            return Err(CryptoError::InvalidBase64);
        },
        Some(v) => v,
    };
    if combined.len() < NONCE_SIZE {
        return Err(CryptoError::TooShort);
    }
    let ghost whole = combined@;
    let sealed = combined.split_off(NONCE_SIZE);
    assert(combined@ =~= whole.take(NONCE_SIZE as int));
    assert(sealed@ =~= whole.skip(NONCE_SIZE as int));
    match gcm_open_bytes(key, &combined, &sealed) {
        None => Err(CryptoError::AuthenticationFailed),
        Some(p) => {
            let ghost bytes = p@;
            match string_from_utf8(p) {
                None => Err(CryptoError::InvalidUtf8),
                Some(s) => {
                    proof {
                        vstd::utf8::decode_utf8_encode_utf8(bytes);
                        if encode_utf8(s@).len() <= MAX_PLAINTEXT_BYTES {
                            assert(whole =~= combined@ + sealed@);
                            assert(encrypts_with(key@, combined@, s@, encrypted@));
                        }
                    }
                    Ok(s)
                },
            }
        },
    }
}

/// Decrypting an encryption of `plain` gives `plain` back, for every string and key.
pub proof fn lemma_round_trip(key: Seq<u8>, plain: Seq<char>, token: Seq<char>)
    requires
        encrypts_to(key, plain, token),
    ensures
        token_plaintext(key, token) == Ok::<Seq<char>, CryptoError>(plain),
{
    let nonce = choose|nonce: Seq<u8>| encrypts_with(key, nonce, plain, token);
    let v = nonce + gcm_seal(key, nonce, encode_utf8(plain));
    assert(v.take(NONCE_SIZE as int) =~= nonce);
    assert(v.skip(NONCE_SIZE as int) =~= gcm_seal(key, nonce, encode_utf8(plain)));
}

/// Two encryptions made with different nonces are different texts.
pub proof fn lemma_distinct_nonces_distinct_tokens(
    key: Seq<u8>,
    plain: Seq<char>,
    n1: Seq<u8>,
    n2: Seq<u8>,
    t1: Seq<char>,
    t2: Seq<char>,
)
    requires
        encrypts_with(key, n1, plain, t1),
        encrypts_with(key, n2, plain, t2),
        n1 != n2,
    ensures
        t1 != t2,
{
    let v1 = n1 + gcm_seal(key, n1, encode_utf8(plain));
    let v2 = n2 + gcm_seal(key, n2, encode_utf8(plain));
    assert(v1.take(NONCE_SIZE as int) =~= n1);
    assert(v2.take(NONCE_SIZE as int) =~= n2);
}

/// A token whose sealed part differs from the genuine encryption of `plain` under the same
/// nonce never decrypts to `plain`: changing any byte after the nonce is detected.
pub proof fn lemma_tampered_ciphertext_rejected(
    key: Seq<u8>,
    nonce: Seq<u8>,
    plain: Seq<char>,
    tampered: Seq<char>,
    sealed: Seq<u8>,
    r: Result<Seq<char>, CryptoError>,
)
    requires
        nonce.len() == NONCE_SIZE,
        encode_utf8(plain).len() <= MAX_PLAINTEXT_BYTES,
        base64_decoded(payload_text(tampered)) == Some(nonce + sealed),
        sealed != gcm_seal(key, nonce, encode_utf8(plain)),
        decrypts_as(key, tampered, r),
    ensures
        r != Ok::<Seq<char>, CryptoError>(plain),
{
    if r == Ok::<Seq<char>, CryptoError>(plain) {
        let n2 = choose|n2: Seq<u8>| encrypts_with(key, n2, plain, tampered);
        let v1 = nonce + sealed;
        let v2 = n2 + gcm_seal(key, n2, encode_utf8(plain));
        assert(v1 == v2);
        assert(v1.take(NONCE_SIZE as int) =~= nonce);
        assert(v2.take(NONCE_SIZE as int) =~= n2);
        assert(v1.skip(NONCE_SIZE as int) =~= sealed);
        assert(v2.skip(NONCE_SIZE as int) =~= gcm_seal(key, n2, encode_utf8(plain)));
    }
}

} // verus!
