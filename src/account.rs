//! The stored account: encrypted tokens, expiry, and the identity-keyed account list.

use vstd::prelude::*;
use vstd::utf8::encode_utf8;
use crate::crypto::{
    decrypt_token, decrypts_as, encrypt_token, encrypts_to, is_encrypted, result_text,
    CryptoError, ENCRYPTED_PREFIX, MAX_PLAINTEXT_BYTES,
};
use crate::text::has_prefix;

verus! {

/// Seconds in a minute.
pub const SECONDS_PER_MINUTE: i64 = 60;

/// Why a stored account record was refused.
#[derive(Debug, Clone, Copy, PartialEq, Eq, Structural)]
pub enum StorageError {
    /// A token field does not carry the `encrypted:` prefix.
    UnencryptedToken,
}

/// Description of [`StorageError::UnencryptedToken`].
pub const MSG_UNENCRYPTED_TOKEN: &'static str = "Token 格式错误：应为加密格式（encrypted:...）";

impl StorageError {
    /// A human-readable description.
    pub fn to_string(&self) -> (r: String)
        ensures
            r@ == MSG_UNENCRYPTED_TOKEN@,
    {
        match self {
            StorageError::UnencryptedToken => String::from_str(MSG_UNENCRYPTED_TOKEN),
        }
    }
}

/// A mail account with its credentials. Both tokens are held only in encrypted form, and
/// `expires_at` (Unix seconds, UTC) is the expiry of the current access token.
#[derive(Debug, Clone)]
pub struct GmailAccount {
    /// Stable unique identifier of the account.
    pub email: String,
    /// Human label, may change on refresh.
    pub display_name: String,
    /// Encrypted access token (`encrypted:...`).
    pub access_token: String,
    /// Encrypted refresh token (`encrypted:...`).
    pub refresh_token: String,
    /// Expiry of the access token, in Unix seconds.
    pub expires_at: i64,
    /// Soft-disable flag.
    pub is_active: bool,
}

/// Default of the `is_active` flag when a stored record omits it.
pub fn default_true() -> (r: bool)
    ensures
        r,
{
    true
}

/// Relies on chrono's `Utc::now().timestamp()`: the current time in Unix seconds, never
/// before the epoch (chrono panics on a system clock set before 1970).
#[verifier::external_body]
pub(crate) fn now_timestamp() -> (r: i64)
    ensures
        r >= 0,
{
    chrono::Utc::now().timestamp()
}

/// `now + ttl_seconds`, clamped to the range of `i64`.
pub open spec fn expiry_time(now: i64, ttl_seconds: i64) -> i64 {
    let t = now as int + ttl_seconds as int;
    if t > i64::MAX {
        i64::MAX
    } else if t < i64::MIN {
        i64::MIN
    } else {
        t as i64
    }
}

/// Computes [`expiry_time`].
pub fn compute_expiry(now: i64, ttl_seconds: i64) -> (r: i64)
    ensures
        r == expiry_time(now, ttl_seconds),
{
    let t: i128 = now as i128 + ttl_seconds as i128;
    if t > i64::MAX as i128 {
        i64::MAX
    } else if t < i64::MIN as i128 {
        i64::MIN
    } else {
        t as i64
    }
}

/// A token value fits AES-GCM's plaintext limit.
pub open spec fn encryptable(s: Seq<char>) -> bool {
    encode_utf8(s).len() <= MAX_PLAINTEXT_BYTES
}

impl GmailAccount {
    /// Both token fields carry the encrypted form.
    pub open spec fn wf(&self) -> bool {
        &&& has_prefix(self.access_token@, ENCRYPTED_PREFIX@)
        &&& has_prefix(self.refresh_token@, ENCRYPTED_PREFIX@)
    }

    /// Creates an account minted at `now`: the tokens are encrypted under `key` and
    /// `expires_at` is `now + expires_in_seconds`.
    pub fn new_at(
        email: String,
        display_name: String,
        access_token: &str,
        refresh_token: &str,
        expires_in_seconds: i64,
        now: i64,
        key: &[u8; 32],
    ) -> (r: Result<GmailAccount, CryptoError>)
        ensures
            r is Ok <==> encryptable(access_token@) && encryptable(refresh_token@),
            r matches Err(e) ==> e == CryptoError::PlaintextTooLong,
            r matches Ok(a) ==> {
                &&& a.wf()
                &&& a.email@ == email@
                &&& a.display_name@ == display_name@
                &&& encrypts_to(key@, access_token@, a.access_token@)
                &&& encrypts_to(key@, refresh_token@, a.refresh_token@)
                &&& a.expires_at == expiry_time(now, expires_in_seconds)
                &&& a.is_active
            },
    {
        let encrypted_access = match encrypt_token(access_token, key) {
            Ok(t) => t,
            Err(e) => {
                return Err(e);
            },
        };
        let encrypted_refresh = match encrypt_token(refresh_token, key) {
            Ok(t) => t,
            Err(e) => {
                return Err(e);
            },
        };
        Ok(GmailAccount {
            email,
            display_name,
            access_token: encrypted_access,
            refresh_token: encrypted_refresh,
            expires_at: compute_expiry(now, expires_in_seconds),
            is_active: true,
        })
    }

    /// Creates an account minted now (see [`GmailAccount::new_at`]).
    pub fn new(
        email: String,
        display_name: String,
        access_token: String,
        refresh_token: String,
        expires_in_seconds: i64,
        key: &[u8; 32],
    ) -> (r: Result<GmailAccount, CryptoError>)
        ensures
            r is Ok <==> encryptable(access_token@) && encryptable(refresh_token@),
            r matches Err(e) ==> e == CryptoError::PlaintextTooLong,
            r matches Ok(a) ==> {
                &&& a.wf()
                &&& a.email@ == email@
                &&& a.display_name@ == display_name@
                &&& encrypts_to(key@, access_token@, a.access_token@)
                &&& encrypts_to(key@, refresh_token@, a.refresh_token@)
                &&& exists|now: i64| now >= 0 && a.expires_at == expiry_time(now, expires_in_seconds)
                &&& a.is_active
            },
    {
        let now = now_timestamp();
        GmailAccount::new_at(
            email,
            display_name,
            access_token.as_str(),
            refresh_token.as_str(),
            expires_in_seconds,
            now,
            key,
        )
    }

    /// Rebuilds an account from a stored record; refused unless both tokens are encrypted.
    pub fn from_stored(
        email: String,
        display_name: String,
        access_token: String,
        refresh_token: String,
        expires_at: i64,
        is_active: bool,
    ) -> (r: Result<GmailAccount, StorageError>)
        ensures
            r is Ok <==> has_prefix(access_token@, ENCRYPTED_PREFIX@) && has_prefix(
                refresh_token@,
                ENCRYPTED_PREFIX@,
            ),
            r matches Err(e) ==> e == StorageError::UnencryptedToken,
            r matches Ok(a) ==> {
                &&& a.wf()
                &&& a.email@ == email@
                &&& a.display_name@ == display_name@
                &&& a.access_token@ == access_token@
                &&& a.refresh_token@ == refresh_token@
                &&& a.expires_at == expires_at
                &&& a.is_active == is_active
            },
    {
        if !is_encrypted(access_token.as_str()) || !is_encrypted(refresh_token.as_str()) {
            return Err(StorageError::UnencryptedToken);
        }
        Ok(GmailAccount { email, display_name, access_token, refresh_token, expires_at, is_active })
    }

    /// Decrypts the access token for the immediate caller.
    pub fn decrypt_access_token(&self, key: &[u8; 32]) -> (r: Result<String, CryptoError>)
        ensures
            decrypts_as(key@, self.access_token@, result_text(r)),
    {
        decrypt_token(self.access_token.as_str(), key)
    }

    /// Decrypts the refresh token for the immediate caller.
    pub fn decrypt_refresh_token(&self, key: &[u8; 32]) -> (r: Result<String, CryptoError>)
        ensures
            decrypts_as(key@, self.refresh_token@, result_text(r)),
    {
        decrypt_token(self.refresh_token.as_str(), key)
    }

    /// The access token expires at or before `now + threshold_minutes` minutes.
    pub open spec fn expiring_at(&self, threshold_minutes: i64, now: i64) -> bool {
        self.expires_at as int <= now as int + threshold_minutes as int * 60
    }

    /// Whether the access token expires within `threshold_minutes` of `now`.
    pub fn is_token_expiring_at(&self, threshold_minutes: i64, now: i64) -> (r: bool)
        ensures
            r == self.expiring_at(threshold_minutes, now),
    {
        let threshold: i128 = now as i128 + threshold_minutes as i128 * SECONDS_PER_MINUTE as i128;
        (self.expires_at as i128) <= threshold
    }

    /// Whether the access token expires within `threshold_minutes` of the current time.
    pub fn is_token_expiring(&self, threshold_minutes: i64) -> (r: bool)
        ensures
            exists|now: i64| now >= 0 && r == self.expiring_at(threshold_minutes, now),
    {
        let now = now_timestamp();
        self.is_token_expiring_at(threshold_minutes, now)
    }

    /// Replaces the access token, re-encrypted under `key`, and sets the expiry to
    /// `now + expires_in_seconds` in one step; on failure nothing changes.
    pub fn update_access_token_at(
        &mut self,
        new_token: &str,
        expires_in_seconds: i64,
        now: i64,
        key: &[u8; 32],
    ) -> (r: Result<(), CryptoError>)
        ensures
            r is Ok <==> encryptable(new_token@),
            r matches Err(e) ==> e == CryptoError::PlaintextTooLong,
            r is Err ==> *final(self) == *old(self),
            r is Ok ==> {
                &&& encrypts_to(key@, new_token@, final(self).access_token@)
                &&& has_prefix(final(self).access_token@, ENCRYPTED_PREFIX@)
                &&& final(self).expires_at == expiry_time(now, expires_in_seconds)
                &&& final(self).email == old(self).email
                &&& final(self).display_name == old(self).display_name
                &&& final(self).refresh_token == old(self).refresh_token
                &&& final(self).is_active == old(self).is_active
            },
    {
        match encrypt_token(new_token, key) {
            Ok(t) => {
                self.access_token = t;
                self.expires_at = compute_expiry(now, expires_in_seconds);
                Ok(())
            },
            Err(e) => Err(e),
        }
    }

    /// Replaces the access token with an expiry counted from the current time.
    pub fn update_access_token(
        &mut self,
        new_token: String,
        expires_in_seconds: i64,
        key: &[u8; 32],
    ) -> (r: Result<(), CryptoError>)
        ensures
            r is Ok <==> encryptable(new_token@),
            r matches Err(e) ==> e == CryptoError::PlaintextTooLong,
            r is Err ==> *final(self) == *old(self),
            r is Ok ==> {
                &&& encrypts_to(key@, new_token@, final(self).access_token@)
                &&& has_prefix(final(self).access_token@, ENCRYPTED_PREFIX@)
                &&& exists|now: i64| now >= 0 && final(self).expires_at == expiry_time(now, expires_in_seconds)
                &&& final(self).email == old(self).email
                &&& final(self).display_name == old(self).display_name
                &&& final(self).refresh_token == old(self).refresh_token
                &&& final(self).is_active == old(self).is_active
            },
    {
        let now = now_timestamp();
        self.update_access_token_at(new_token.as_str(), expires_in_seconds, now, key)
    }
}

/// The form of a token as written to storage: an encrypted token is kept, a plain one is
/// encrypted under `key` first.
pub fn token_for_storage(token: &str, key: &[u8; 32]) -> (r: Result<String, CryptoError>)
    ensures
        has_prefix(token@, ENCRYPTED_PREFIX@) ==> (r matches Ok(s) && s@ == token@),
        !has_prefix(token@, ENCRYPTED_PREFIX@) ==> {
            &&& (r is Ok <==> encryptable(token@))
            &&& (r matches Ok(s) ==> encrypts_to(key@, token@, s@))
        },
{
    if is_encrypted(token) {
        Ok(token.to_string())
    } else {
        encrypt_token(token, key)
    }
}

/// A token read from storage, kept encrypted; refused unless it carries the prefix.
pub fn token_from_storage(stored: String) -> (r: Result<String, StorageError>)
    ensures
        r is Ok <==> has_prefix(stored@, ENCRYPTED_PREFIX@),
        r matches Ok(s) ==> s@ == stored@,
        r matches Err(e) ==> e == StorageError::UnencryptedToken,
{
    if is_encrypted(stored.as_str()) {
        Ok(stored)
    } else {
        Err(StorageError::UnencryptedToken)
    }
}

/// No two records of `s` share an email.
pub open spec fn emails_unique(s: Seq<GmailAccount>) -> bool {
    forall|i: int, j: int|
        0 <= i < s.len() && 0 <= j < s.len() && i != j ==> s[i].email@ != s[j].email@
}

/// `i` is the first record of `s` with email `e`.
pub open spec fn first_with_email(s: Seq<GmailAccount>, e: Seq<char>, i: int) -> bool {
    &&& 0 <= i < s.len()
    &&& s[i].email@ == e
    &&& forall|j: int| 0 <= j < i ==> s[j].email@ != e
}

/// No record of `s` has email `e`.
pub open spec fn lacks_email(s: Seq<GmailAccount>, e: Seq<char>) -> bool {
    forall|j: int| 0 <= j < s.len() ==> s[j].email@ != e
}

/// `new` is `old` with `account` saved by email: the first record with that email is
/// replaced in place, or `account` is appended when there is none.
pub open spec fn upserted(old: Seq<GmailAccount>, account: GmailAccount, new: Seq<GmailAccount>) -> bool {
    &&& lacks_email(old, account.email@) ==> new == old.push(account)
    &&& forall|i: int| first_with_email(old, account.email@, i) ==> new == old.update(i, account)
}

/// Saves `account` into the list by email (replace in place, or append).
pub fn upsert_account(accounts: &mut Vec<GmailAccount>, account: GmailAccount)
    ensures
        upserted(old(accounts)@, account, final(accounts)@),
{
    let n = accounts.len();
    let mut i: usize = 0;
    while i < n
        invariant
            n == accounts@.len(),
            i <= n,
            *accounts == *old(accounts),
            forall|j: int| 0 <= j < i ==> accounts@[j].email@ != account.email@,
        decreases n - i,
    {
        if accounts[i].email == account.email {
            let ghost before = accounts@;
            accounts.set(i, account);
            assert forall|k: int| first_with_email(before, account.email@, k) implies k == i by {
                if k < i {
                } else if k > i {
                }
            }
            return;
        }
        i = i + 1;
    }
    accounts.push(account);
}

/// Saving an account whose email is already stored keeps the list length, leaves exactly
/// one record with that email (the saved one), and saving it again changes nothing.
pub proof fn lemma_upsert_existing(
    old: Seq<GmailAccount>,
    account: GmailAccount,
    new: Seq<GmailAccount>,
    again: Seq<GmailAccount>,
)
    requires
        emails_unique(old),
        !lacks_email(old, account.email@),
        upserted(old, account, new),
        upserted(new, account, again),
    ensures
        new.len() == old.len(),
        exists|i: int|
            0 <= i < new.len() && new[i] == account && forall|j: int|
                0 <= j < new.len() && j != i ==> new[j].email@ != account.email@,
        emails_unique(new),
        again == new,
{
    let k = choose|k: int| 0 <= k < old.len() && old[k].email@ == account.email@;
    assert(first_with_email(old, account.email@, k));
    assert(new == old.update(k, account));
    assert(first_with_email(new, account.email@, k));
    assert(again == new.update(k, account));
    assert(again =~= new);
}

/// Saving any account into a list with unique emails keeps the emails unique.
pub proof fn lemma_upsert_keeps_unique(old: Seq<GmailAccount>, account: GmailAccount, new: Seq<GmailAccount>)
    requires
        emails_unique(old),
        upserted(old, account, new),
    ensures
        emails_unique(new),
{
    if lacks_email(old, account.email@) {
        assert(new == old.push(account));
    } else {
        let k = choose|k: int| 0 <= k < old.len() && old[k].email@ == account.email@;
        assert(first_with_email(old, account.email@, k));
        assert(new == old.update(k, account));
        assert forall|i: int| 0 <= i < new.len() implies new[i].email@ == old[i].email@ by {}
    }
}

} // verus!
