use nanomail::config::{Config, OAuthConfig};

#[test]
fn test_default_config() {
    let config = OAuthConfig::default();
    assert!(config.is_placeholder());
    assert_eq!(config.redirect_uri, "http://localhost:8080");
    assert_eq!(config.scopes.len(), 4);
    assert!(config.scopes.iter().any(|s| s == "openid"));
}

#[test]
fn test_is_placeholder() {
    let mut config = OAuthConfig::default();
    assert!(config.is_placeholder());

    config.client_id = "real-client-id.apps.googleusercontent.com".to_string();
    config.client_secret = "real-secret".to_string();
    assert!(!config.is_placeholder());
}

#[test]
fn placeholder_secret_alone_blocks() {
    let mut config = OAuthConfig::default();
    config.client_id = "real-client-id".to_string();
    assert!(config.is_placeholder());
    config.client_secret = "real".to_string();
    assert!(!config.is_placeholder());
}

#[test]
fn app_config_defaults() {
    let config = Config::default();
    assert_eq!(config.app.version, "0.1.0");
    assert_eq!(config.app.theme, "light");
    assert_eq!(config.app.sync_interval, 300);
}
