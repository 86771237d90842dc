//! Application settings and OAuth2 client configuration.

use vstd::prelude::*;
use crate::text::{contains, contains_seq};

verus! {

/// Placeholder client identifier shipped before real credentials are configured.
pub const PLACEHOLDER_CLIENT_ID: &'static str = "YOUR_CLIENT_ID.apps.googleusercontent.com";

/// Placeholder client secret shipped before real credentials are configured.
pub const PLACEHOLDER_CLIENT_SECRET: &'static str = "YOUR_CLIENT_SECRET";

/// Marker whose presence in the client identifier means it is a placeholder.
pub const CLIENT_ID_MARKER: &'static str = "YOUR_CLIENT_ID";

/// Marker whose presence in the client secret means it is a placeholder.
pub const CLIENT_SECRET_MARKER: &'static str = "YOUR_CLIENT_SECRET";

/// Default redirect base URI (the first port of the loopback range).
pub const DEFAULT_REDIRECT_URI: &'static str = "http://localhost:8080";

/// OAuth2 client credentials and the scopes requested.
#[derive(Debug, Clone)]
pub struct OAuthConfig {
    /// OAuth2 client identifier.
    pub client_id: String,
    /// OAuth2 client secret.
    pub client_secret: String,
    /// Redirect base URI.
    pub redirect_uri: String,
    /// Requested API scopes.
    pub scopes: Vec<String>,
}

/// The scopes requested by default: mailbox read, email, profile and OpenID.
pub open spec fn default_scopes() -> Seq<Seq<char>> {
    seq![
        "https://www.googleapis.com/auth/gmail.readonly"@,
        "https://www.googleapis.com/auth/userinfo.email"@,
        "https://www.googleapis.com/auth/userinfo.profile"@,
        "openid"@,
    ]
}

impl Default for OAuthConfig {
    fn default() -> (r: OAuthConfig)
        ensures
            r.client_id@ == PLACEHOLDER_CLIENT_ID@,
            r.client_secret@ == PLACEHOLDER_CLIENT_SECRET@,
            r.redirect_uri@ == DEFAULT_REDIRECT_URI@,
            r.scopes@.len() == 4,
            forall|i: int| 0 <= i < 4 ==> #[trigger] r.scopes@[i]@ == default_scopes()[i],
    {
        let mut scopes: Vec<String> = Vec::new();
        scopes.push(String::from_str("https://www.googleapis.com/auth/gmail.readonly"));
        scopes.push(String::from_str("https://www.googleapis.com/auth/userinfo.email"));
        scopes.push(String::from_str("https://www.googleapis.com/auth/userinfo.profile"));
        scopes.push(String::from_str("openid"));
        OAuthConfig {
            client_id: String::from_str(PLACEHOLDER_CLIENT_ID),
            client_secret: String::from_str(PLACEHOLDER_CLIENT_SECRET),
            redirect_uri: String::from_str(DEFAULT_REDIRECT_URI),
            scopes,
        }
    }
}

impl OAuthConfig {
    /// The credentials are still placeholders.
    pub open spec fn placeholder(&self) -> bool {
        contains_seq(self.client_id@, CLIENT_ID_MARKER@) || contains_seq(
            self.client_secret@,
            CLIENT_SECRET_MARKER@,
        )
    }

    /// Whether the credentials are still placeholders, which blocks the interactive flow.
    pub fn is_placeholder(&self) -> (r: bool)
        ensures
            r == self.placeholder(),
    {
        contains(self.client_id.as_str(), CLIENT_ID_MARKER) || contains(
            self.client_secret.as_str(),
            CLIENT_SECRET_MARKER,
        )
    }
}

/// Application settings persisted beside the accounts.
#[derive(Debug)]
pub struct Config {
    /// The `[app]` section.
    pub app: AppConfig,
}

/// The `[app]` section of the settings.
#[derive(Debug)]
pub struct AppConfig {
    /// Settings format version.
    pub version: String,
    /// UI theme, `light` or `dark`.
    pub theme: String,
    /// Sync interval in seconds.
    pub sync_interval: u64,
}

impl Default for Config {
    fn default() -> (r: Config)
        ensures
            r.app.version@ == "0.1.0"@,
            r.app.theme@ == "light"@,
            r.app.sync_interval == 300,
    {
        Config {
            app: AppConfig {
                version: String::from_str("0.1.0"),
                theme: String::from_str("light"),
                sync_interval: 300,
            },
        }
    }
}

} // verus!
