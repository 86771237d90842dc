//! Derivation of the 256-bit token key from the machine's unique identifier.

use vstd::prelude::*;
use argon2::password_hash::{PasswordHasher, SaltString};
use argon2::Argon2;
use crate::crypto::CryptoError;

verus! {

/// Fixed application salt: the key's uniqueness comes from the machine identifier alone, so
/// the same machine derives the same key on every call.
pub const FIXED_SALT: &'static [u8; 16] = &[
    78, 97, 110, 111, 77, 97, 105, 108, 46, 118, 49, 46, 50, 48, 50, 53,
];

/// Length in bytes of the derived key.
pub const KEY_SIZE: usize = 32;

/// The hash bytes that default Argon2id gives for a password and a salt.
pub uninterp spec fn argon2id_hash_of(password: Seq<u8>, salt: Seq<u8>) -> Seq<u8>;

/// Largest password, in bytes, that Argon2 accepts.
pub const MAX_PASSWORD_BYTES: usize = 0xFFFFFFFF;

/// Relies on argon2's `Argon2::default().hash_password`, with the salt encoded by
/// `SaltString::encode_b64`: the raw hash output of the PHC result, 32 bytes with the default
/// parameters. It fails only for a password above `MAX_PWD_LEN` or a salt that is shorter
/// than 8 bytes or too long to encode in 64 Base64 characters, which `requires` excludes.
#[verifier::external_body]
fn argon2id_hash(password: &[u8], salt: &[u8]) -> (r: Vec<u8>)
    requires
        password@.len() <= MAX_PASSWORD_BYTES,
        8 <= salt@.len() <= 48,
    ensures
        r@ == argon2id_hash_of(password@, salt@),
        r@.len() == KEY_SIZE,
{
    let salt = SaltString::encode_b64(salt).expect("salt within the encodable range");
    let hash = Argon2::default().hash_password(password, &salt).expect("inputs within limits");
    hash.hash.expect("hash output is always set").as_bytes().to_vec()
}

/// The key for a machine identifier: the first 32 bytes of its Argon2id hash.
pub open spec fn machine_key(machine_guid: Seq<char>) -> Seq<u8> {
    argon2id_hash_of(vstd::utf8::encode_utf8(machine_guid), FIXED_SALT@).take(KEY_SIZE as int)
}

/// Derives the 256-bit key bound to the machine whose identifier is `machine_guid`.
pub fn derive_encryption_key(machine_guid: &str) -> (r: Result<[u8; 32], CryptoError>)
    ensures
        r matches Ok(k) ==> k@ == machine_key(machine_guid@),
        r matches Err(e) ==> e == CryptoError::KeyDerivation,
        r is Ok <==> vstd::utf8::encode_utf8(machine_guid@).len() <= MAX_PASSWORD_BYTES
            && argon2id_hash_of(vstd::utf8::encode_utf8(machine_guid@), FIXED_SALT@).len() >= KEY_SIZE,
{
    let password = machine_guid.as_bytes();
    if password.len() > MAX_PASSWORD_BYTES {
        return Err(CryptoError::KeyDerivation);
    }
    let hash = argon2id_hash(password, FIXED_SALT.as_slice());
    if hash.len() < KEY_SIZE {
        return Err(CryptoError::KeyDerivation);
    }
    let mut key = [0u8; 32];
    let mut i: usize = 0;
    while i < KEY_SIZE
        invariant
            i <= KEY_SIZE,
            hash@.len() >= KEY_SIZE,
            key@.len() == KEY_SIZE,
            forall|j: int| 0 <= j < i ==> key@[j] == hash@[j],
        decreases KEY_SIZE - i,
    {
        key[i] = hash[i];
        i = i + 1;
    }
    assert(key@ =~= hash@.take(KEY_SIZE as int));
    Ok(key)
}

} // verus!
