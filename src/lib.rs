//! Credential and sync engine for a polling mail notifier: machine-bound
//! token encryption, the stored account entity, token refresh decisions,
//! the OAuth2 authorization-code flow with PKCE, and the sync cycle with
//! network probing and backoff.

pub mod text;
pub mod crypto;
pub mod machine_key;
pub mod account;
pub mod config;
pub mod probe;
pub mod token;
pub mod api;
pub mod sync;
pub mod oauth;
pub mod ui;
