//! Token manager: hands out a valid access token, deciding when a refresh is needed and
//! applying the token endpoint's answer.

use vstd::prelude::*;
use crate::account::{encryptable, expiry_time, GmailAccount};
use crate::config::OAuthConfig;
use crate::crypto::{encrypts_to, result_text, token_plaintext, CryptoError, ENCRYPTED_PREFIX};
use crate::text::{contains, contains_seq, has_prefix};

verus! {

/// Minutes before expiry at which a token counts as expiring.
pub const REFRESH_THRESHOLD_MINUTES: i64 = 5;

/// Lifetime recorded when the token endpoint omits `expires_in`, in seconds.
pub const DEFAULT_TOKEN_TTL_SECS: i64 = 3600;

/// Provider authorization endpoint.
pub const AUTH_URL: &'static str = "https://accounts.google.com/o/oauth2/v2/auth";

/// Provider token endpoint.
pub const TOKEN_URL: &'static str = "https://oauth2.googleapis.com/token";

/// Marker of a dead refresh token in a token endpoint error.
pub const INVALID_GRANT_MARKER: &'static str = "invalid_grant";

/// Marker of an unauthorized answer in a token endpoint error.
pub const UNAUTHORIZED_MARKER: &'static str = "401";

/// A refresh-grant request for the token endpoint.
#[derive(Debug, Clone)]
pub struct RefreshRequest {
    /// OAuth2 client identifier.
    pub client_id: String,
    /// OAuth2 client secret.
    pub client_secret: String,
    /// The decrypted refresh token.
    pub refresh_token: String,
}

/// What the caller does to obtain a valid access token.
#[derive(Debug)]
pub enum TokenStep {
    /// The current access token, decrypted.
    Ready(String),
    /// The token is expiring: perform this refresh, then report it with `complete_refresh`.
    Refresh(RefreshRequest),
}

/// The token endpoint's answer to a refresh grant.
#[derive(Debug)]
pub enum RefreshOutcome {
    /// A new access token with its lifetime in seconds, if given.
    Issued { access_token: String, expires_in: Option<u64> },
    /// The exchange failed; `message` is the endpoint's or the transport's description.
    Rejected { message: String },
}

/// Why no valid token could be had.
#[derive(Debug, Clone, PartialEq, Eq)]
pub enum TokenError {
    /// A stored token could not be decrypted, or a new one encrypted.
    Crypto(CryptoError),
    /// The refresh token was refused ("invalid grant" / unauthorized): re-authorization needed.
    Revoked(String),
    /// A transient failure (network, server error): the caller may retry later.
    Retryable(String),
}

/// Start of the description of a revoked refresh token.
pub const MSG_REVOKED: &'static str = "Refresh Token 交换失败（可能已过期或被撤销）：";

/// Start of the description of a retryable refresh failure.
pub const MSG_RETRYABLE: &'static str = "Refresh Token 交换失败: ";

impl TokenError {
    /// The description of this error.
    pub open spec fn text(&self) -> Seq<char> {
        match self {
            TokenError::Crypto(e) => e.text(),
            TokenError::Revoked(m) => MSG_REVOKED@ + m@,
            TokenError::Retryable(m) => MSG_RETRYABLE@ + m@,
        }
    }

    /// A human-readable description.
    pub fn to_string(&self) -> (r: String)
        ensures
            r@ == self.text(),
    {
        match self {
            TokenError::Crypto(e) => e.to_string(),
            TokenError::Revoked(m) => String::from_str(MSG_REVOKED).concat(m.as_str()),
            TokenError::Retryable(m) => String::from_str(MSG_RETRYABLE).concat(m.as_str()),
        }
    }
}

/// A refresh failure message that says the refresh token itself is dead.
pub open spec fn revocation_message(message: Seq<char>) -> bool {
    contains_seq(message, INVALID_GRANT_MARKER@) || contains_seq(message, UNAUTHORIZED_MARKER@)
}

/// Classifies a failed refresh: revoked (not to be retried) or retryable.
pub fn classify_refresh_failure(message: String) -> (r: TokenError)
    ensures
        revocation_message(message@) ==> r == TokenError::Revoked(message),
        !revocation_message(message@) ==> r == TokenError::Retryable(message),
{
    if contains(message.as_str(), INVALID_GRANT_MARKER) || contains(
        message.as_str(),
        UNAUTHORIZED_MARKER,
    ) {
        TokenError::Revoked(message)
    } else {
        TokenError::Retryable(message)
    }
}

/// The lifetime to record for an issued token: the given one capped at `i64::MAX`, or the
/// default when absent.
pub open spec fn issued_ttl(expires_in: Option<u64>) -> i64 {
    match expires_in {
        None => DEFAULT_TOKEN_TTL_SECS,
        Some(s) => if s > i64::MAX as u64 {
            i64::MAX
        } else {
            s as i64
        },
    }
}

/// The lifetime to record for an issued token (see [`issued_ttl`]).
pub fn ttl_from_response(expires_in: Option<u64>) -> (r: i64)
    ensures
        r == issued_ttl(expires_in),
{
    match expires_in {
        None => DEFAULT_TOKEN_TTL_SECS,
        Some(s) => if s > i64::MAX as u64 {
            i64::MAX
        } else {
            s as i64
        },
    }
}

/// Keeps one account's access token valid.
pub struct TokenManager {
    account: GmailAccount,
    oauth_config: OAuthConfig,
    key: [u8; 32],
}

impl TokenManager {
    /// The managed account.
    pub closed spec fn account_spec(&self) -> GmailAccount {
        self.account
    }

    /// The client configuration used for refresh grants.
    pub closed spec fn config_spec(&self) -> OAuthConfig {
        self.oauth_config
    }

    /// The token key.
    pub closed spec fn key_spec(&self) -> Seq<u8> {
        self.key@
    }

    /// The refresh request for the managed account, when its refresh token decrypts.
    pub open spec fn refresh_request_for(&self, req: RefreshRequest) -> bool {
        &&& req.client_id == self.config_spec().client_id
        &&& req.client_secret == self.config_spec().client_secret
        &&& token_plaintext(self.key_spec(), self.account_spec().refresh_token@)
            == Ok::<Seq<char>, CryptoError>(req.refresh_token@)
    }

    /// Creates a manager for `account`, refreshing through `oauth_config`'s client and
    /// encrypting under `key`.
    pub fn new(account: GmailAccount, oauth_config: OAuthConfig, key: [u8; 32]) -> (r: TokenManager)
        ensures
            r.account_spec() == account,
            r.config_spec() == oauth_config,
            r.key_spec() == key@,
    {
        TokenManager { account, oauth_config, key }
    }

    fn refresh_request(&self) -> (r: Result<RefreshRequest, TokenError>)
        ensures
            r matches Ok(req) ==> self.refresh_request_for(req),
            r matches Err(e) ==> exists|c: CryptoError| e == TokenError::Crypto(c) && token_plaintext(
                self.key_spec(),
                self.account_spec().refresh_token@,
            ) == Err::<Seq<char>, CryptoError>(c),
            r is Ok <==> token_plaintext(self.key_spec(), self.account_spec().refresh_token@) is Ok,
    {
        match self.account.decrypt_refresh_token(&self.key) {
            Ok(refresh_token) => Ok(
                RefreshRequest {
                    client_id: self.oauth_config.client_id.clone(),
                    client_secret: self.oauth_config.client_secret.clone(),
                    refresh_token,
                },
            ),
            Err(e) => Err(TokenError::Crypto(e)),
        }
    }

    /// Decides how to obtain a valid token at time `now`: the decrypted current token when it
    /// is not expiring within the threshold, else a refresh request.
    pub fn get_valid_token_at(&self, now: i64) -> (r: Result<TokenStep, TokenError>)
        ensures
            self.account_spec().expiring_at(REFRESH_THRESHOLD_MINUTES, now) ==> {
                &&& (r is Ok <==> token_plaintext(self.key_spec(), self.account_spec().refresh_token@) is Ok)
                &&& (r matches Ok(step) ==> (step matches TokenStep::Refresh(req) && self.refresh_request_for(req)))
                &&& (r matches Err(e) ==> exists|c: CryptoError| e == TokenError::Crypto(c)
                    && token_plaintext(self.key_spec(), self.account_spec().refresh_token@)
                        == Err::<Seq<char>, CryptoError>(c))
            },
            !self.account_spec().expiring_at(REFRESH_THRESHOLD_MINUTES, now) ==> {
                &&& (r matches Ok(step) ==> (step matches TokenStep::Ready(t)
                    && token_plaintext(self.key_spec(), self.account_spec().access_token@)
                        == Ok::<Seq<char>, CryptoError>(t@)))
                &&& (r matches Err(e) ==> exists|c: CryptoError| e == TokenError::Crypto(c)
                    && token_plaintext(self.key_spec(), self.account_spec().access_token@)
                        == Err::<Seq<char>, CryptoError>(c))
                &&& (r is Ok <==> token_plaintext(self.key_spec(), self.account_spec().access_token@) is Ok)
            },
    {
        if self.account.is_token_expiring_at(REFRESH_THRESHOLD_MINUTES, now) {
            match self.refresh_request() {
                Ok(req) => Ok(TokenStep::Refresh(req)),
                Err(e) => Err(e),
            }
        } else {
            match self.account.decrypt_access_token(&self.key) {
                Ok(t) => Ok(TokenStep::Ready(t)),
                Err(e) => Err(TokenError::Crypto(e)),
            }
        }
    }

    /// Decides how to obtain a valid token at the current time.
    pub fn get_valid_token(&self) -> (r: Result<TokenStep, TokenError>)
        ensures
            r matches Ok(TokenStep::Ready(t)) ==> token_plaintext(self.key_spec(), self.account_spec().access_token@)
                == Ok::<Seq<char>, CryptoError>(t@),
            r matches Ok(TokenStep::Refresh(req)) ==> self.refresh_request_for(req),
            token_plaintext(self.key_spec(), self.account_spec().access_token@) is Ok
                && token_plaintext(self.key_spec(), self.account_spec().refresh_token@) is Ok ==> r is Ok,
            r matches Err(e) ==> exists|c: CryptoError| e == TokenError::Crypto(c) && (
                token_plaintext(self.key_spec(), self.account_spec().access_token@)
                    == Err::<Seq<char>, CryptoError>(c)
                || token_plaintext(self.key_spec(), self.account_spec().refresh_token@)
                    == Err::<Seq<char>, CryptoError>(c)),
    {
        let now = crate::account::now_timestamp();
        self.get_valid_token_at(now)
    }

    /// A refresh request regardless of expiry, for when the provider refused a token that
    /// looked valid.
    pub fn force_refresh(&self) -> (r: Result<RefreshRequest, TokenError>)
        ensures
            r matches Ok(req) ==> self.refresh_request_for(req),
            r is Ok <==> token_plaintext(self.key_spec(), self.account_spec().refresh_token@) is Ok,
            r matches Err(e) ==> e is Crypto,
    {
        self.refresh_request()
    }

    /// Applies the token endpoint's answer at time `now`. On success the account holds the new
    /// token, encrypted, with expiry `now + ttl`, and the caller persists `account()`; on any
    /// failure the account is left as it was.
    pub fn complete_refresh_at(&mut self, outcome: RefreshOutcome, now: i64) -> (r: Result<String, TokenError>)
        ensures
            final(self).config_spec() == old(self).config_spec(),
            final(self).key_spec() == old(self).key_spec(),
            r is Err ==> final(self).account_spec() == old(self).account_spec(),
            outcome matches RefreshOutcome::Rejected { message } ==> {
                &&& revocation_message(message@) ==> r == Err::<String, TokenError>(TokenError::Revoked(message))
                &&& !revocation_message(message@) ==> r == Err::<String, TokenError>(TokenError::Retryable(message))
            },
            match outcome {
                RefreshOutcome::Rejected { .. } => true,
                RefreshOutcome::Issued { access_token, expires_in } => {
                    &&& (r is Ok <==> encryptable(access_token@))
                    &&& (r matches Err(e) ==> e == TokenError::Crypto(CryptoError::PlaintextTooLong))
                    &&& (r matches Ok(t) ==> {
                        &&& t@ == access_token@
                        &&& encrypts_to(old(self).key_spec(), access_token@, final(self).account_spec().access_token@)
                        &&& has_prefix(final(self).account_spec().access_token@, ENCRYPTED_PREFIX@)
                        &&& final(self).account_spec().expires_at == expiry_time(now, issued_ttl(expires_in))
                        &&& final(self).account_spec().refresh_token == old(self).account_spec().refresh_token
                        &&& final(self).account_spec().email == old(self).account_spec().email
                        &&& final(self).account_spec().display_name == old(self).account_spec().display_name
                        &&& final(self).account_spec().is_active == old(self).account_spec().is_active
                    })
                },
            },
    {
        match outcome {
            RefreshOutcome::Rejected { message } => Err(classify_refresh_failure(message)),
            RefreshOutcome::Issued { access_token, expires_in } => {
                let ttl = ttl_from_response(expires_in);
                match self.account.update_access_token_at(access_token.as_str(), ttl, now, &self.key) {
                    Ok(()) => Ok(access_token),
                    Err(e) => Err(TokenError::Crypto(e)),
                }
            },
        }
    }

    /// Applies the token endpoint's answer at the current time.
    pub fn complete_refresh(&mut self, outcome: RefreshOutcome) -> (r: Result<String, TokenError>)
        ensures
            final(self).config_spec() == old(self).config_spec(),
            final(self).key_spec() == old(self).key_spec(),
            r is Err ==> final(self).account_spec() == old(self).account_spec(),
            outcome matches RefreshOutcome::Rejected { message } ==> {
                &&& revocation_message(message@) ==> r == Err::<String, TokenError>(TokenError::Revoked(message))
                &&& !revocation_message(message@) ==> r == Err::<String, TokenError>(TokenError::Retryable(message))
            },
            outcome matches RefreshOutcome::Issued { access_token, expires_in } ==> {
                &&& (r is Ok <==> encryptable(access_token@))
                &&& (r matches Err(e) ==> e == TokenError::Crypto(CryptoError::PlaintextTooLong))
                &&& (r matches Ok(t) ==> {
                    &&& t@ == access_token@
                    &&& exists|now: i64| now >= 0 && final(self).account_spec().expires_at == expiry_time(now, issued_ttl(expires_in))
                    &&& encrypts_to(old(self).key_spec(), access_token@, final(self).account_spec().access_token@)
                    &&& has_prefix(final(self).account_spec().access_token@, ENCRYPTED_PREFIX@)
                    &&& final(self).account_spec().refresh_token == old(self).account_spec().refresh_token
                    &&& final(self).account_spec().email == old(self).account_spec().email
                    &&& final(self).account_spec().display_name == old(self).account_spec().display_name
                    &&& final(self).account_spec().is_active == old(self).account_spec().is_active
                })
            },
    {
        let now = crate::account::now_timestamp();
        self.complete_refresh_at(outcome, now)
    }

    /// The managed account.
    pub fn account(&self) -> (r: &GmailAccount)
        ensures
            *r == self.account_spec(),
    {
        &self.account
    }

    /// The managed account, for in-place changes.
    pub fn account_mut(&mut self) -> (r: &mut GmailAccount)
        ensures
            *r == old(self).account_spec(),
            final(self).account_spec() == *final(r),
            final(self).config_spec() == old(self).config_spec(),
            final(self).key_spec() == old(self).key_spec(),
    {
        &mut self.account
    }
}

/// An expired access token is refreshed once. The manager's first decision is a refresh
/// request (the account is expiring); once the endpoint has issued token `t` with lifetime
/// `ttl` above the threshold, as `complete_refresh_at` records it, the account expires at
/// `now + ttl`, in the future, is not expiring, and holds `t`, so the next decision at `now`
/// hands out `t` without another refresh.
pub proof fn lemma_expired_token_refreshed_once(
    before: GmailAccount,
    after: GmailAccount,
    key: Seq<u8>,
    t: Seq<char>,
    ttl: u64,
    now: i64,
)
    requires
        before.expires_at < now,
        now >= 0,
        now as int + ttl as int <= i64::MAX,
        ttl > REFRESH_THRESHOLD_MINUTES * 60,
        encryptable(t),
        encrypts_to(key, t, after.access_token@),
        after.expires_at == expiry_time(now, issued_ttl(Some(ttl))),
    ensures
        before.expiring_at(REFRESH_THRESHOLD_MINUTES, now),
        after.expires_at == now + ttl,
        after.expires_at > now,
        !after.expiring_at(0, now),
        !after.expiring_at(REFRESH_THRESHOLD_MINUTES, now),
        token_plaintext(key, after.access_token@) == Ok::<Seq<char>, CryptoError>(t),
{
    crate::crypto::lemma_round_trip(key, t, after.access_token@);
}

} // verus!
