//! The OAuth2 authorization-code flow with PKCE, as decisions between outside steps:
//! loopback port selection, the browser callback, CSRF validation, the code exchange with
//! its one public-client retry, and the identity lookup.

use vstd::prelude::*;
use vstd::utf8::is_ascii_chars;
use oauth2::basic::BasicClient;
use oauth2::{AuthUrl, ClientId, CsrfToken, PkceCodeChallenge, PkceCodeVerifier, RedirectUrl, Scope};
use crate::api::display_name_from_email;
use crate::config::OAuthConfig;
use crate::text::{contains, contains_seq, decimal, decimal_string};
use crate::token::{issued_ttl, ttl_from_response, AUTH_URL};
use crate::api::local_part_len;
use crate::account::{encryptable, expiry_time, GmailAccount};
use crate::crypto::{encrypts_to, CryptoError};

verus! {

/// Seconds to wait for the browser callback.
pub const CALLBACK_TIMEOUT_SECS: u64 = 60;

/// First loopback port tried.
pub const PORT_RANGE_START: u16 = 8080;

/// End (exclusive) of the loopback ports tried.
pub const PORT_RANGE_END: u16 = 8090;

/// Loopback ports tried, in order.
pub const PORT_RANGE: std::ops::Range<u16> = PORT_RANGE_START..PORT_RANGE_END;

/// Base of the loopback redirect URI; the port follows.
pub const LOOPBACK_BASE: &'static str = "http://localhost:";

/// Marker, in a failed exchange, of a client that the provider treats as public.
pub const INVALID_CLIENT_MARKER: &'static str = "invalid_client";

/// Second marker of a client that the provider treats as public.
pub const UNAUTHORIZED_CLIENT_MARKER: &'static str = "Unauthorized";

/// Page shown in the browser after a successful callback.
pub const SUCCESS_HTML: &'static str = "<!DOCTYPE html>
<html>
<head>
    <meta charset=\"utf-8\">
    <title>授权成功 - NanoMail</title>
</head>
<body>
    <div class=\"container\">
        <div class=\"checkmark\">✓</div>
        <h1>授权成功</h1>
        <p>您的 Gmail 账户已成功连接到 NanoMail。</p>
        <p>现在可以关闭此页面并返回应用程序。</p>
    </div>
</body>
</html>";

/// Page shown in the browser after a denied or failed callback.
pub const ERROR_HTML: &'static str = "<!DOCTYPE html>
<html>
<head>
    <meta charset=\"utf-8\">
    <title>授权失败 - NanoMail</title>
</head>
<body>
    <div class=\"container\">
        <div class=\"cross\">✗</div>
        <h1>授权失败</h1>
        <p>Gmail 账户连接失败，请稍后重试。</p>
        <p>如果问题持续，请检查网络连接或联系支持。</p>
    </div>
</body>
</html>";

/// The authorization URL that oauth2 builds for a client, a redirect URI, scopes, a PKCE
/// verifier and a CSRF state.
pub uninterp spec fn authorization_url_of(
    client_id: Seq<char>,
    redirect_uri: Seq<char>,
    scopes: Seq<Seq<char>>,
    verifier: Seq<char>,
    state: Seq<char>,
) -> Seq<char>;

/// The query pairs, percent-decoded and in order, that url finds in a URL; `None` when the
/// text is not a URL.
pub uninterp spec fn query_pairs_of(url: Seq<char>) -> Option<Seq<(Seq<char>, Seq<char>)>>;

/// Relies on oauth2's `PkceCodeChallenge::new_random_sha256`: a random verifier, Base64 (URL
/// alphabet, no padding) of 32 random bytes, so 43 ASCII characters.
#[verifier::external_body]
fn new_pkce_verifier() -> (r: String)
    ensures
        r@.len() == 43,
        is_ascii_chars(r@),
{
    PkceCodeChallenge::new_random_sha256().1.secret().clone()
}

/// Relies on oauth2's `CsrfToken::new_random`: a random state token.
#[verifier::external_body]
fn new_csrf_state() -> (r: String) {
    CsrfToken::new_random().secret().clone()
}

/// The views of a list of string pairs.
pub open spec fn pair_views(v: Seq<(String, String)>) -> Seq<(Seq<char>, Seq<char>)> {
    v.map_values(|p: (String, String)| (p.0@, p.1@))
}

/// Relies on oauth2's `BasicClient::authorize_url` with the S256 challenge of `verifier`:
/// the authorization URL; `None` only when the redirect URI is not a URL (the authorization
/// endpoint is a constant URL, and `http://localhost:<port>` always parses).
#[verifier::external_body]
fn authorization_url(
    client_id: &str,
    redirect_uri: &str,
    scopes: &Vec<String>,
    verifier: &str,
    state: &str,
) -> (r: Option<String>)
    requires
        43 <= verifier@.len() <= 128,
        is_ascii_chars(verifier@),
    ensures
        (exists|port: u16| redirect_uri@ == redirect_uri_spec(port)) ==> r is Some,
        r matches Some(u) ==> u@ == authorization_url_of(
            client_id@,
            redirect_uri@,
            scopes@.map_values(|s: String| s@),
            verifier@,
            state@,
        ),
{
    let redirect = RedirectUrl::new(redirect_uri.to_string()).ok()?;
    let client = BasicClient::new(ClientId::new(client_id.to_string()), None, AuthUrl::new(AUTH_URL.to_string()).ok()?, None).set_redirect_uri(redirect);
    let challenge = PkceCodeChallenge::from_code_verifier_sha256(&PkceCodeVerifier::new(verifier.to_string()));
    let request = client.authorize_url(|| CsrfToken::new(state.to_string()));
    let (url, _) = request.add_scopes(scopes.iter().map(|s| Scope::new(s.clone()))).set_pkce_challenge(challenge).url();
    Some(url.to_string())
}

/// Relies on url's `Url::parse` and `query_pairs`: the decoded query pairs in order.
#[verifier::external_body]
fn url_query_pairs(url: &str) -> (r: Option<Vec<(String, String)>>)
    ensures
        r matches Some(v) ==> query_pairs_of(url@) == Some(pair_views(v@)),
        r is None ==> query_pairs_of(url@) is None,
{
    let parsed = url::Url::parse(url).ok()?;
    Some(parsed.query_pairs().into_owned().collect())
}

/// The loopback redirect URI for `port`.
pub open spec fn redirect_uri_spec(port: u16) -> Seq<char> {
    LOOPBACK_BASE@ + decimal(port as nat)
}

/// The loopback redirect URI for `port`: `http://localhost:<port>`.
pub fn redirect_uri_for_port(port: u16) -> (r: String)
    ensures
        r@ == redirect_uri_spec(port),
{
    let mut s = String::from_str(LOOPBACK_BASE);
    let digits = decimal_string(port as u64);
    s.append(digits.as_str());
    s
}

/// The value of the last pair named `name` (later pairs override earlier ones).
pub open spec fn last_value(pairs: Seq<(Seq<char>, Seq<char>)>, name: Seq<char>) -> Option<Seq<char>>
    decreases pairs.len(),
{
    if pairs.len() == 0 {
        None
    } else if pairs.last().0 == name {
        Some(pairs.last().1)
    } else {
        last_value(pairs.drop_last(), name)
    }
}

/// The view of an optional string.
pub open spec fn opt_view(o: Option<String>) -> Option<Seq<char>> {
    match o {
        Some(s) => Some(s@),
        None => None,
    }
}

/// Whether two strings hold the same characters.
pub fn same_text(a: &str, b: &str) -> (r: bool)
    ensures
        r == (a@ == b@),
{
    let equal = a.unicode_len() == b.unicode_len() && crate::text::starts_with(a, b);
    proof {
        if equal {
            assert(a@ =~= b@);
        }
        if a@ == b@ {
            assert(a@.subrange(0, b@.len() as int) =~= b@);
        }
    }
    equal
}

/// The value of the last pair named `name`, as a map built from the pairs in order holds it.
pub fn last_param(pairs: &Vec<(String, String)>, name: &str) -> (r: Option<String>)
    ensures
        opt_view(r) == last_value(pair_views(pairs@), name@),
{
    let mut found: Option<String> = None;
    let mut i: usize = 0;
    while i < pairs.len()
        invariant
            i <= pairs@.len(),
            opt_view(found) == last_value(pair_views(pairs@.take(i as int)), name@),
        decreases pairs@.len() - i,
    {
        let ghost prev = pair_views(pairs@.take(i as int));
        assert(pair_views(pairs@.take(i + 1)).drop_last() =~= prev);
        if same_text(pairs[i].0.as_str(), name) {
            found = Some(pairs[i].1.clone());
        }
        i = i + 1;
    }
    assert(pairs@.take(pairs@.len() as int) =~= pairs@);
    found
}

/// What the browser callback carried.
#[derive(Debug, Clone, PartialEq, Eq)]
pub enum CallbackOutcome {
    /// An authorization code with the returned CSRF state.
    Authorized { code: String, state: String },
    /// The provider reported an error (the user denied access).
    Denied(String),
    /// No `code` parameter.
    MissingCode,
    /// No `state` parameter.
    MissingState,
    /// The request target is not a URL.
    Unparsable,
}

/// The callback outcome for the query pairs of a callback request.
pub open spec fn callback_from_pairs(pairs: Seq<(Seq<char>, Seq<char>)>, r: CallbackOutcome) -> bool {
    match last_value(pairs, "error"@) {
        Some(e) => r matches CallbackOutcome::Denied(m) && m@ == e,
        None => match last_value(pairs, "code"@) {
            None => r is MissingCode,
            Some(c) => match last_value(pairs, "state"@) {
                None => r is MissingState,
                Some(st) => r matches CallbackOutcome::Authorized { code, state } && code@ == c
                    && state@ == st,
            },
        },
    }
}

/// Reads the callback request received on `port` for `target` (path and query).
pub fn parse_callback(port: u16, target: &str) -> (r: CallbackOutcome)
    ensures
        match query_pairs_of(redirect_uri_spec(port) + target@) {
            None => r is Unparsable,
            Some(pairs) => callback_from_pairs(pairs, r),
        },
{
    let mut url = redirect_uri_for_port(port);
    url.append(target);
    let pairs = match url_query_pairs(url.as_str()) {
        None => {
            return CallbackOutcome::Unparsable;
        },
        Some(p) => p,
    };
    proof {
        reveal_strlit("error");
        reveal_strlit("code");
        reveal_strlit("state");
    }
    match last_param(&pairs, "error") {
        Some(e) => {
            return CallbackOutcome::Denied(e);
        },
        None => {},
    }
    let code = match last_param(&pairs, "code") {
        Some(c) => c,
        None => {
            return CallbackOutcome::MissingCode;
        },
    };
    match last_param(&pairs, "state") {
        Some(state) => CallbackOutcome::Authorized { code, state },
        None => CallbackOutcome::MissingState,
    }
}

/// A failed exchange message that says the client is being treated as public.
pub open spec fn public_client_message(message: Seq<char>) -> bool {
    contains_seq(message, INVALID_CLIENT_MARKER@) || contains_seq(message, UNAUTHORIZED_CLIENT_MARKER@)
}

/// Whether a failed exchange calls for the one retry without the client secret.
pub fn indicates_public_client(message: &str) -> (r: bool)
    ensures
        r == public_client_message(message@),
{
    contains(message, INVALID_CLIENT_MARKER) || contains(message, UNAUTHORIZED_CLIENT_MARKER)
}

/// Why an authorization attempt ended without an account.
#[derive(Debug, Clone, PartialEq, Eq)]
pub enum AuthError {
    /// The client credentials are placeholders.
    PlaceholderConfig,
    /// No loopback port of the range could be bound.
    AllPortsExhausted,
    /// An endpoint or the redirect URI is not a valid URL.
    InvalidEndpoint,
    /// The provider reported this error (the user denied access).
    Denied(String),
    /// The callback lacked `code` or `state`, or was not a URL.
    MalformedCallback,
    /// No callback arrived in time.
    Timeout,
    /// The returned state differs from the one generated for this flow.
    CsrfMismatch,
    /// The code exchange failed.
    ExchangeFailed(String),
    /// The exchange issued no refresh token, so unattended refresh is impossible.
    MissingRefreshToken,
    /// The identity call failed.
    IdentityFailed(String),
    /// An event arrived that the flow does not expect in its current phase.
    OutOfOrder,
}

/// Description of each [`AuthError`] (followed by the carried text, where there is one).
pub const MSG_PLACEHOLDER_CONFIG: &'static str = "OAuth2 配置无效：请设置环境变量或创建配置文件";
pub const MSG_ALL_PORTS_EXHAUSTED: &'static str = "所有端口均被占用";
pub const MSG_INVALID_ENDPOINT: &'static str = "OAuth2 端点或回调地址无效";
pub const MSG_MALFORMED_CALLBACK: &'static str = "回调缺少 code 或 state 参数";
pub const MSG_TIMEOUT: &'static str = "授权超时：用户未在规定时间内完成授权";
pub const MSG_CSRF_MISMATCH: &'static str = "CSRF 验证失败：state 不匹配";
pub const MSG_MISSING_REFRESH_TOKEN: &'static str = "未收到 refresh_token";
pub const MSG_OUT_OF_ORDER: &'static str = "授权流程收到意外事件";
pub const MSG_DENIED: &'static str = "用户拒绝授权: ";
pub const MSG_EXCHANGE_FAILED: &'static str = "Token 交换失败: ";
pub const MSG_IDENTITY_FAILED: &'static str = "获取用户信息失败: ";

impl AuthError {
    /// The description of this error.
    pub open spec fn text(&self) -> Seq<char> {
        match self {
            AuthError::PlaceholderConfig => MSG_PLACEHOLDER_CONFIG@,
            AuthError::AllPortsExhausted => MSG_ALL_PORTS_EXHAUSTED@,
            AuthError::InvalidEndpoint => MSG_INVALID_ENDPOINT@,
            AuthError::MalformedCallback => MSG_MALFORMED_CALLBACK@,
            AuthError::Timeout => MSG_TIMEOUT@,
            AuthError::CsrfMismatch => MSG_CSRF_MISMATCH@,
            AuthError::MissingRefreshToken => MSG_MISSING_REFRESH_TOKEN@,
            AuthError::OutOfOrder => MSG_OUT_OF_ORDER@,
            AuthError::Denied(m) => MSG_DENIED@ + m@,
            AuthError::ExchangeFailed(m) => MSG_EXCHANGE_FAILED@ + m@,
            AuthError::IdentityFailed(m) => MSG_IDENTITY_FAILED@ + m@,
        }
    }

    /// A human-readable description.
    pub fn to_string(&self) -> (r: String)
        ensures
            r@ == self.text(),
    {
        match self {
            AuthError::PlaceholderConfig => String::from_str(MSG_PLACEHOLDER_CONFIG),
            AuthError::AllPortsExhausted => String::from_str(MSG_ALL_PORTS_EXHAUSTED),
            AuthError::InvalidEndpoint => String::from_str(MSG_INVALID_ENDPOINT),
            AuthError::MalformedCallback => String::from_str(MSG_MALFORMED_CALLBACK),
            AuthError::Timeout => String::from_str(MSG_TIMEOUT),
            AuthError::CsrfMismatch => String::from_str(MSG_CSRF_MISMATCH),
            AuthError::MissingRefreshToken => String::from_str(MSG_MISSING_REFRESH_TOKEN),
            AuthError::OutOfOrder => String::from_str(MSG_OUT_OF_ORDER),
            AuthError::Denied(m) => String::from_str(MSG_DENIED).concat(m.as_str()),
            AuthError::ExchangeFailed(m) => String::from_str(MSG_EXCHANGE_FAILED).concat(m.as_str()),
            AuthError::IdentityFailed(m) => String::from_str(MSG_IDENTITY_FAILED).concat(m.as_str()),
        }
    }
}

/// What a successful authorization yields, before encryption and storage.
#[derive(Debug, Clone)]
pub struct AuthGrant {
    /// Account email from the identity endpoint.
    pub email: String,
    /// Display name derived from the email.
    pub display_name: String,
    /// Issued access token.
    pub access_token: String,
    /// Issued refresh token.
    pub refresh_token: String,
    /// Lifetime of the access token, in seconds.
    pub expires_in: i64,
}

/// Where the flow stands.
#[derive(Debug, Clone, Copy, PartialEq, Eq, Structural)]
pub enum AuthPhase {
    /// Binding a loopback listener on `port`.
    Binding,
    /// The browser is open; waiting for the callback.
    AwaitingCallback,
    /// Waiting for the code exchange.
    Exchanging,
    /// Waiting for the identity call.
    FetchingIdentity,
    /// The flow has ended.
    Finished,
}

/// The token endpoint's answer to the code exchange.
#[derive(Debug)]
pub enum ExchangeOutcome {
    /// Tokens were issued.
    Issued { access_token: String, refresh_token: Option<String>, expires_in: Option<u64> },
    /// The exchange failed with this description.
    Rejected { message: String },
}

/// What the flow asks for next.
#[derive(Debug)]
pub enum AuthAction {
    /// Try to bind the loopback listener on `port`.
    TryBind { port: u16 },
    /// Open `url` in the browser and wait for one callback on `port`.
    OpenBrowserAndListen { url: String, port: u16 },
    /// Exchange `code` at the token endpoint, with the PKCE verifier and redirect URI; the
    /// client secret is sent only when `include_secret`.
    ExchangeCode { code: String, verifier: String, redirect_uri: String, include_secret: bool },
    /// Call the identity endpoint with the issued access token.
    FetchIdentity { access_token: String },
    /// The flow is over.
    Finish(Result<AuthGrant, AuthError>),
}

/// One interactive authorization attempt.
#[derive(Debug)]
pub struct AuthorizationFlow {
    /// Client configuration.
    pub config: OAuthConfig,
    /// Where the flow stands.
    pub phase: AuthPhase,
    /// The loopback port in use or being tried.
    pub port: u16,
    /// CSRF state generated for this flow.
    pub csrf_state: String,
    /// PKCE verifier generated for this flow.
    pub pkce_verifier: String,
    /// Redirect URI sent with the request.
    pub redirect_uri: String,
    /// Authorization code received.
    pub code: String,
    /// The one exchange retry without client secret has been used.
    pub public_retry_used: bool,
    /// Issued access token.
    pub access_token: String,
    /// Issued refresh token.
    pub refresh_token: String,
    /// Lifetime of the issued access token, in seconds.
    pub expires_in: i64,
}

/// `r` ends the flow with error `e`.
pub open spec fn fails_with(r: AuthAction, e: AuthError) -> bool {
    r == AuthAction::Finish(Err(e))
}

/// `r` opens `url` in the browser and listens on `port`.
pub open spec fn opens_browser(r: AuthAction, port: u16, url: Seq<char>) -> bool {
    match r {
        AuthAction::OpenBrowserAndListen { url: u, port: p } => p == port && u@ == url,
        _ => false,
    }
}

/// After a successful bind: the flow waits on the same port with its redirect URI, a fresh
/// 43-character verifier and a state, and `r` sends the browser to the URL built from them.
pub open spec fn listening(before: AuthorizationFlow, after: AuthorizationFlow, r: AuthAction) -> bool {
    &&& after.phase == AuthPhase::AwaitingCallback
    &&& after.port == before.port
    &&& after.redirect_uri@ == redirect_uri_spec(before.port)
    &&& after.pkce_verifier@.len() == 43
    &&& opens_browser(
        r,
        before.port,
        authorization_url_of(
            before.config.client_id@,
            after.redirect_uri@,
            before.config.scopes@.map_values(|s: String| s@),
            after.pkce_verifier@,
            after.csrf_state@,
        ),
    )
}

impl AuthorizationFlow {
    /// The port stays in range while binding.
    pub open spec fn wf(&self) -> bool {
        &&& PORT_RANGE_START <= self.port < PORT_RANGE_END
    }

    /// Starts a flow: refused at once when the credentials are placeholders, otherwise the
    /// first port of the range is tried.
    pub fn start(config: OAuthConfig) -> (r: (AuthorizationFlow, AuthAction))
        ensures
            r.0.wf(),
            r.0.config == config,
            r.0.port == PORT_RANGE_START,
            config.placeholder() ==> r.0.phase == AuthPhase::Finished && fails_with(r.1, AuthError::PlaceholderConfig),
            !config.placeholder() ==> r.0.phase == AuthPhase::Binding && r.1 == (AuthAction::TryBind { port: PORT_RANGE_START }),
    {
        let placeholder = config.is_placeholder();
        let flow = AuthorizationFlow {
            config,
            phase: if placeholder { AuthPhase::Finished } else { AuthPhase::Binding },
            port: PORT_RANGE_START,
            csrf_state: String::new(),
            pkce_verifier: String::new(),
            redirect_uri: String::new(),
            code: String::new(),
            public_retry_used: false,
            access_token: String::new(),
            refresh_token: String::new(),
            expires_in: 0,
        };
        if placeholder {
            (flow, AuthAction::Finish(Err(AuthError::PlaceholderConfig)))
        } else {
            (flow, AuthAction::TryBind { port: PORT_RANGE_START })
        }
    }

    /// Records whether the listener could be bound on the current port. When it could, a fresh
    /// PKCE verifier and CSRF state are generated and the browser is always sent to the
    /// authorization URL; when it could not, the next port is tried, until the range is
    /// exhausted.
    pub fn on_bind(&mut self, bound: bool) -> (r: AuthAction)
        requires
            old(self).wf(),
        ensures
            final(self).wf(),
            final(self).config == old(self).config,
            old(self).phase != AuthPhase::Binding ==> fails_with(r, AuthError::OutOfOrder)
                && final(self).phase == AuthPhase::Finished,
            old(self).phase == AuthPhase::Binding && !bound ==> {
                &&& old(self).port + 1 < PORT_RANGE_END ==> r == (AuthAction::TryBind { port: (old(self).port + 1) as u16 })
                    && final(self).port == old(self).port + 1 && final(self).phase == AuthPhase::Binding
                &&& old(self).port + 1 >= PORT_RANGE_END ==> fails_with(r, AuthError::AllPortsExhausted)
                    && final(self).phase == AuthPhase::Finished
            },
            old(self).phase == AuthPhase::Binding && bound ==> listening(*old(self), *final(self), r),
    {
        if self.phase != AuthPhase::Binding {
            self.phase = AuthPhase::Finished;
            return AuthAction::Finish(Err(AuthError::OutOfOrder));
        }
        if !bound {
            if self.port + 1 < PORT_RANGE_END {
                self.port = self.port + 1;
                return AuthAction::TryBind { port: self.port };
            }
            self.phase = AuthPhase::Finished;
            return AuthAction::Finish(Err(AuthError::AllPortsExhausted));
        }
        let redirect_uri = redirect_uri_for_port(self.port);
        let verifier = new_pkce_verifier();
        let state = new_csrf_state();
        let url = authorization_url(
            self.config.client_id.as_str(),
            redirect_uri.as_str(),
            &self.config.scopes,
            verifier.as_str(),
            state.as_str(),
        );
        match url {
            None => {
                self.phase = AuthPhase::Finished;
                AuthAction::Finish(Err(AuthError::InvalidEndpoint))
            },
            Some(url) => {
                self.redirect_uri = redirect_uri;
                self.pkce_verifier = verifier;
                self.csrf_state = state;
                self.phase = AuthPhase::AwaitingCallback;
                AuthAction::OpenBrowserAndListen { url, port: self.port }
            },
        }
    }

    /// Records the callback (`None` when the wait timed out). Only a callback whose state is
    /// exactly the one generated for this flow leads to the code exchange.
    pub fn on_callback(&mut self, callback: Option<CallbackOutcome>) -> (r: AuthAction)
        requires
            old(self).wf(),
        ensures
            final(self).wf(),
            final(self).config == old(self).config,
            final(self).csrf_state == old(self).csrf_state,
            old(self).phase != AuthPhase::AwaitingCallback ==> fails_with(r, AuthError::OutOfOrder)
                && final(self).phase == AuthPhase::Finished,
            r is ExchangeCode ==> (callback matches Some(CallbackOutcome::Authorized { state, .. })
                && state@ == old(self).csrf_state@),
            old(self).phase == AuthPhase::AwaitingCallback ==> match callback {
                None => fails_with(r, AuthError::Timeout) && final(self).phase == AuthPhase::Finished,
                Some(CallbackOutcome::Denied(e)) => fails_with(r, AuthError::Denied(e))
                    && final(self).phase == AuthPhase::Finished,
                Some(CallbackOutcome::Authorized { code, state }) => if state@ != old(self).csrf_state@ {
                    fails_with(r, AuthError::CsrfMismatch) && final(self).phase == AuthPhase::Finished
                } else {
                    &&& r == (AuthAction::ExchangeCode {
                        code,
                        verifier: old(self).pkce_verifier,
                        redirect_uri: old(self).redirect_uri,
                        include_secret: true,
                    })
                    &&& final(self).phase == AuthPhase::Exchanging
                    &&& final(self).code == code
                    &&& final(self).pkce_verifier == old(self).pkce_verifier
                    &&& final(self).redirect_uri == old(self).redirect_uri
                    &&& !final(self).public_retry_used
                },
                Some(_) => fails_with(r, AuthError::MalformedCallback) && final(self).phase == AuthPhase::Finished,
            },
    {
        if self.phase != AuthPhase::AwaitingCallback {
            self.phase = AuthPhase::Finished;
            return AuthAction::Finish(Err(AuthError::OutOfOrder));
        }
        self.phase = AuthPhase::Finished;
        match callback {
            None => AuthAction::Finish(Err(AuthError::Timeout)),
            Some(CallbackOutcome::Denied(e)) => AuthAction::Finish(Err(AuthError::Denied(e))),
            Some(CallbackOutcome::Authorized { code, state }) => {
                if !same_text(state.as_str(), self.csrf_state.as_str()) {
                    return AuthAction::Finish(Err(AuthError::CsrfMismatch));
                }
                self.phase = AuthPhase::Exchanging;
                self.code = code.clone();
                self.public_retry_used = false;
                AuthAction::ExchangeCode {
                    code,
                    verifier: self.pkce_verifier.clone(),
                    redirect_uri: self.redirect_uri.clone(),
                    include_secret: true,
                }
            },
            Some(_) => AuthAction::Finish(Err(AuthError::MalformedCallback)),
        }
    }

    /// Records the exchange answer. A refusal that says the client is public gets exactly one
    /// retry with the same code and verifier but no client secret; any other failure, a second
    /// failure, or an answer without refresh token ends the flow.
    pub fn on_exchange(&mut self, outcome: ExchangeOutcome) -> (r: AuthAction)
        requires
            old(self).wf(),
        ensures
            final(self).wf(),
            final(self).config == old(self).config,
            old(self).phase != AuthPhase::Exchanging ==> fails_with(r, AuthError::OutOfOrder)
                && final(self).phase == AuthPhase::Finished,
            old(self).phase == AuthPhase::Exchanging && r is ExchangeCode ==> !old(self).public_retry_used
                && final(self).public_retry_used,
            old(self).phase == AuthPhase::Exchanging ==> match outcome {
                ExchangeOutcome::Issued { access_token, refresh_token, expires_in } => match refresh_token {
                    None => fails_with(r, AuthError::MissingRefreshToken) && final(self).phase == AuthPhase::Finished,
                    Some(rt) => {
                        &&& r == (AuthAction::FetchIdentity { access_token })
                        &&& final(self).phase == AuthPhase::FetchingIdentity
                        &&& final(self).access_token == access_token
                        &&& final(self).refresh_token == rt
                        &&& final(self).expires_in == issued_ttl(expires_in)
                    },
                },
                ExchangeOutcome::Rejected { message } => if public_client_message(message@)
                    && !old(self).public_retry_used {
                    &&& r == (AuthAction::ExchangeCode {
                        code: old(self).code,
                        verifier: old(self).pkce_verifier,
                        redirect_uri: old(self).redirect_uri,
                        include_secret: false,
                    })
                    &&& final(self).phase == AuthPhase::Exchanging
                } else {
                    fails_with(r, AuthError::ExchangeFailed(message)) && final(self).phase == AuthPhase::Finished
                },
            },
    {
        if self.phase != AuthPhase::Exchanging {
            self.phase = AuthPhase::Finished;
            return AuthAction::Finish(Err(AuthError::OutOfOrder));
        }
        match outcome {
            ExchangeOutcome::Issued { access_token, refresh_token, expires_in } => match refresh_token {
                None => {
                    self.phase = AuthPhase::Finished;
                    AuthAction::Finish(Err(AuthError::MissingRefreshToken))
                },
                Some(rt) => {
                    self.phase = AuthPhase::FetchingIdentity;
                    self.access_token = access_token.clone();
                    self.refresh_token = rt;
                    self.expires_in = ttl_from_response(expires_in);
                    AuthAction::FetchIdentity { access_token }
                },
            },
            ExchangeOutcome::Rejected { message } => {
                if !self.public_retry_used && indicates_public_client(message.as_str()) {
                    self.public_retry_used = true;
                    AuthAction::ExchangeCode {
                        code: self.code.clone(),
                        verifier: self.pkce_verifier.clone(),
                        redirect_uri: self.redirect_uri.clone(),
                        include_secret: false,
                    }
                } else {
                    self.phase = AuthPhase::Finished;
                    AuthAction::Finish(Err(AuthError::ExchangeFailed(message)))
                }
            },
        }
    }

    /// Records the identity answer (the account email, or the failure) and ends the flow.
    pub fn on_identity(&mut self, identity: Result<String, String>) -> (r: AuthAction)
        requires
            old(self).wf(),
        ensures
            final(self).wf(),
            final(self).phase == AuthPhase::Finished,
            old(self).phase != AuthPhase::FetchingIdentity ==> fails_with(r, AuthError::OutOfOrder),
            old(self).phase == AuthPhase::FetchingIdentity ==> match identity {
                Err(m) => fails_with(r, AuthError::IdentityFailed(m)),
                Ok(email) => (r matches AuthAction::Finish(Ok(g)) && {
                    &&& g.email == email
                    &&& exists|n: int| local_part_len(email@, n) && g.display_name@ == email@.take(n)
                    &&& g.access_token == old(self).access_token
                    &&& g.refresh_token == old(self).refresh_token
                    &&& g.expires_in == old(self).expires_in
                }),
            },
    {
        if self.phase != AuthPhase::FetchingIdentity {
            self.phase = AuthPhase::Finished;
            return AuthAction::Finish(Err(AuthError::OutOfOrder));
        }
        self.phase = AuthPhase::Finished;
        match identity {
            Err(m) => AuthAction::Finish(Err(AuthError::IdentityFailed(m))),
            Ok(email) => {
                let display_name = display_name_from_email(email.as_str());
                AuthAction::Finish(
                    Ok(
                        AuthGrant {
                            email,
                            display_name,
                            access_token: self.access_token.clone(),
                            refresh_token: self.refresh_token.clone(),
                            expires_in: self.expires_in,
                        },
                    ),
                )
            },
        }
    }
}

/// The account for a completed authorization, minted at `now` with its tokens encrypted
/// under `key`.
pub fn finalize_account(grant: AuthGrant, key: &[u8; 32], now: i64) -> (r: Result<GmailAccount, CryptoError>)
    ensures
        r is Ok <==> encryptable(grant.access_token@) && encryptable(grant.refresh_token@),
        r matches Ok(a) ==> {
            &&& a.wf()
            &&& a.email@ == grant.email@
            &&& a.display_name@ == grant.display_name@
            &&& encrypts_to(key@, grant.access_token@, a.access_token@)
            &&& encrypts_to(key@, grant.refresh_token@, a.refresh_token@)
            &&& a.expires_at == expiry_time(now, grant.expires_in)
            &&& a.is_active
        },
{
    GmailAccount::new_at(
        grant.email,
        grant.display_name,
        grant.access_token.as_str(),
        grant.refresh_token.as_str(),
        grant.expires_in,
        now,
        key,
    )
}

} // verus!
