use nanomail::account::GmailAccount;
use nanomail::config::OAuthConfig;
use nanomail::crypto::CryptoError;
use nanomail::token::{
    classify_refresh_failure, RefreshOutcome, TokenError, TokenManager, TokenStep,
    REFRESH_THRESHOLD_MINUTES,
};

const KEY: [u8; 32] = [5u8; 32];

fn config() -> OAuthConfig {
    let mut config = OAuthConfig::default();
    config.client_id = "cid".to_string();
    config.client_secret = "csecret".to_string();
    config
}

fn account_expiring_in(ttl: i64, now: i64) -> GmailAccount {
    GmailAccount::new_at(
        "test@gmail.com".to_string(),
        "Test User".to_string(),
        "old_access_token",
        "valid_refresh_token",
        ttl,
        now,
        &KEY,
    )
    .expect("创建账户失败")
}

#[test]
fn test_refresh_threshold() {
    assert_eq!(REFRESH_THRESHOLD_MINUTES, 5);
}

#[test]
fn valid_token_is_returned_without_refresh() {
    let now = 1_000_000;
    let manager = TokenManager::new(account_expiring_in(3600, now), config(), KEY);
    match manager.get_valid_token_at(now).unwrap() {
        TokenStep::Ready(t) => assert_eq!(t, "old_access_token"),
        TokenStep::Refresh(_) => panic!("no refresh expected"),
    }
}

#[test]
fn token_inside_threshold_needs_refresh() {
    let now = 1_000_000;
    let manager = TokenManager::new(account_expiring_in(300, now), config(), KEY);
    assert!(matches!(manager.get_valid_token_at(now).unwrap(), TokenStep::Refresh(_)));
    let manager = TokenManager::new(account_expiring_in(301, now), config(), KEY);
    assert!(matches!(manager.get_valid_token_at(now).unwrap(), TokenStep::Ready(_)));
}

#[test]
fn test_token_refresh() {
    let now = 1_000_000;
    let account = account_expiring_in(-3600, now);
    let mut manager = TokenManager::new(account, config(), KEY);

    assert!(manager.account().is_token_expiring_at(0, now));

    let request = match manager.get_valid_token_at(now).unwrap() {
        TokenStep::Refresh(req) => req,
        TokenStep::Ready(_) => panic!("refresh expected"),
    };
    assert_eq!(request.refresh_token, "valid_refresh_token");
    assert_eq!(request.client_id, "cid");
    assert_eq!(request.client_secret, "csecret");

    let token = manager
        .complete_refresh_at(
            RefreshOutcome::Issued { access_token: "new_access_token".to_string(), expires_in: Some(3599) },
            now,
        )
        .unwrap();
    assert_eq!(token, "new_access_token");
    assert!(!token.is_empty());
    assert_eq!(manager.account().expires_at, now + 3599);
    assert!(!manager.account().is_token_expiring_at(0, now));
    match manager.get_valid_token_at(now).unwrap() {
        TokenStep::Ready(t) => assert_eq!(t, "new_access_token"),
        TokenStep::Refresh(_) => panic!("no second refresh expected"),
    }
}

#[test]
fn missing_lifetime_defaults_to_an_hour() {
    let now = 50;
    let mut manager = TokenManager::new(account_expiring_in(0, now), config(), KEY);
    manager
        .complete_refresh_at(RefreshOutcome::Issued { access_token: "x".to_string(), expires_in: None }, now)
        .unwrap();
    assert_eq!(manager.account().expires_at, now + 3600);
}

#[test]
fn revoked_refresh_leaves_account_untouched() {
    let now = 1_000;
    let mut manager = TokenManager::new(account_expiring_in(-10, now), config(), KEY);
    let before = manager.account().clone();
    let err = manager
        .complete_refresh_at(
            RefreshOutcome::Rejected { message: "Server returned error response: invalid_grant".to_string() },
            now,
        )
        .unwrap_err();
    assert!(matches!(err, TokenError::Revoked(_)));
    assert_eq!(manager.account().refresh_token, before.refresh_token);
    assert_eq!(manager.account().access_token, before.access_token);
    assert_eq!(manager.account().expires_at, before.expires_at);
}

#[test]
fn transient_refresh_failure_is_retryable() {
    let now = 1_000;
    let mut manager = TokenManager::new(account_expiring_in(-10, now), config(), KEY);
    let err = manager
        .complete_refresh_at(RefreshOutcome::Rejected { message: "connection reset".to_string() }, now)
        .unwrap_err();
    assert_eq!(err, TokenError::Retryable("connection reset".to_string()));
    assert!(err.to_string().contains("connection reset"));
}

#[test]
fn classification_of_refresh_failures() {
    assert!(matches!(classify_refresh_failure("HTTP 401".to_string()), TokenError::Revoked(_)));
    assert!(matches!(classify_refresh_failure("invalid_grant".to_string()), TokenError::Revoked(_)));
    assert!(matches!(classify_refresh_failure("503".to_string()), TokenError::Retryable(_)));
}

#[test]
fn force_refresh_ignores_expiry() {
    let now = 1_000;
    let manager = TokenManager::new(account_expiring_in(86_400, now), config(), KEY);
    let request = manager.force_refresh().unwrap();
    assert_eq!(request.refresh_token, "valid_refresh_token");
}

#[test]
fn undecryptable_token_is_a_crypto_error() {
    let now = 1_000;
    let mut account = account_expiring_in(86_400, now);
    account.access_token = "encrypted:AAAA".to_string();
    let manager = TokenManager::new(account, config(), KEY);
    assert_eq!(
        manager.get_valid_token_at(now).unwrap_err(),
        TokenError::Crypto(CryptoError::TooShort)
    );
}

#[test]
fn account_mut_changes_the_managed_account() {
    let mut manager = TokenManager::new(account_expiring_in(10, 0), config(), KEY);
    manager.account_mut().display_name = "Renamed".to_string();
    assert_eq!(manager.account().display_name, "Renamed");
}
