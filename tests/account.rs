use nanomail::account::{
    default_true, token_for_storage, token_from_storage, upsert_account,
    GmailAccount, StorageError,
};
use nanomail::crypto::{decrypt_token, is_encrypted};

const KEY: [u8; 32] = [9u8; 32];

fn create_test_account(email: &str) -> GmailAccount {
    GmailAccount::new(
        email.to_string(),
        format!("{} User", email),
        "test_access_token".to_string(),
        "test_refresh_token".to_string(),
        3600,
        &KEY,
    )
    .expect("创建测试账户失败")
}

#[test]
fn test_create_account() {
    let account = GmailAccount::new(
        "test@gmail.com".to_string(),
        "Test User".to_string(),
        "plain_access_token".to_string(),
        "plain_refresh_token".to_string(),
        3600,
        &KEY,
    )
    .expect("创建账户失败");

    assert_eq!(account.email, "test@gmail.com");
    assert_eq!(account.display_name, "Test User");
    assert!(account.is_active);
    assert!(is_encrypted(&account.access_token));
    assert!(is_encrypted(&account.refresh_token));
    assert!(!account.access_token.contains("plain_access_token"));
}

#[test]
fn test_decrypt_tokens() {
    let account = GmailAccount::new(
        "test@gmail.com".to_string(),
        "Test User".to_string(),
        "plain_access_token".to_string(),
        "plain_refresh_token".to_string(),
        3600,
        &KEY,
    )
    .expect("创建账户失败");

    let decrypted_access = account.decrypt_access_token(&KEY).unwrap();
    let decrypted_refresh = account.decrypt_refresh_token(&KEY).unwrap();

    assert_eq!(decrypted_access, "plain_access_token");
    assert_eq!(decrypted_refresh, "plain_refresh_token");
}

#[test]
fn test_is_token_expiring() {
    let mut account = GmailAccount::new(
        "test@gmail.com".to_string(),
        "Test User".to_string(),
        "token".to_string(),
        "refresh".to_string(),
        3600,
        &KEY,
    )
    .expect("创建账户失败");

    assert!(!account.is_token_expiring(10));
    assert!(account.is_token_expiring(120));

    account.expires_at = chrono::Utc::now().timestamp() - 10 * 60;
    assert!(account.is_token_expiring(0));
}

#[test]
fn expiry_at_fixed_times() {
    let now = 1_700_000_000;
    let mut account = GmailAccount::new_at(
        "a@b.c".to_string(),
        "A".to_string(),
        "t",
        "r",
        3600,
        now,
        &KEY,
    )
    .unwrap();
    assert_eq!(account.expires_at, now + 3600);
    assert!(!account.is_token_expiring_at(10, now));
    assert!(!account.is_token_expiring_at(59, now));
    assert!(account.is_token_expiring_at(60, now));
    assert!(account.is_token_expiring_at(120, now));
    account.expires_at = now - 1;
    assert!(account.is_token_expiring_at(0, now));
    assert!(!account.is_token_expiring_at(i64::MIN / 60, now));
}

#[test]
fn expiry_saturates_instead_of_overflowing() {
    let account =
        GmailAccount::new_at("a".to_string(), "A".to_string(), "t", "r", i64::MAX, 10, &KEY)
            .unwrap();
    assert_eq!(account.expires_at, i64::MAX);
    assert!(account.is_token_expiring_at(i64::MAX, 0));
}

#[test]
fn test_update_access_token() {
    let mut account = GmailAccount::new_at(
        "test@gmail.com".to_string(),
        "Test User".to_string(),
        "old_token",
        "refresh",
        3600,
        1_000,
        &KEY,
    )
    .expect("创建账户失败");

    let old_expires = account.expires_at;
    let old_refresh = account.refresh_token.clone();

    account.update_access_token_at("new_token", 7200, 1_001, &KEY).unwrap();

    assert!(is_encrypted(&account.access_token));
    assert_ne!(account.expires_at, old_expires);
    assert_eq!(account.expires_at, 1_001 + 7200);
    assert_eq!(account.refresh_token, old_refresh);

    let decrypted = account.decrypt_access_token(&KEY).unwrap();
    assert_eq!(decrypted, "new_token");
}

#[test]
fn update_with_clock_moves_expiry_forward() {
    let mut account = create_test_account("clock@gmail.com");
    account.expires_at = 0;
    account.update_access_token("fresh".to_string(), 600, &KEY).unwrap();
    assert!(account.expires_at >= chrono::Utc::now().timestamp() + 600 - 5);
    assert_eq!(account.decrypt_access_token(&KEY).unwrap(), "fresh");
}

#[test]
fn stored_records_must_be_encrypted() {
    let ok = GmailAccount::from_stored(
        "a@b.c".to_string(),
        "A".to_string(),
        "encrypted:AAAA".to_string(),
        "encrypted:BBBB".to_string(),
        5,
        false,
    )
    .unwrap();
    assert_eq!(ok.expires_at, 5);
    assert!(!ok.is_active);
    let bad = GmailAccount::from_stored(
        "a@b.c".to_string(),
        "A".to_string(),
        "encrypted:AAAA".to_string(),
        "plain".to_string(),
        5,
        true,
    );
    assert_eq!(bad.unwrap_err(), StorageError::UnencryptedToken);
    assert!(StorageError::UnencryptedToken.to_string().contains("encrypted:"));
}

#[test]
fn storage_form_of_tokens() {
    assert_eq!(token_for_storage("encrypted:xyz", &KEY).unwrap(), "encrypted:xyz");
    let stored = token_for_storage("plain_access_token", &KEY).unwrap();
    assert!(is_encrypted(&stored));
    assert_eq!(decrypt_token(&stored, &KEY).unwrap(), "plain_access_token");
    assert_eq!(token_from_storage("encrypted:abc".to_string()).unwrap(), "encrypted:abc");
    assert_eq!(token_from_storage("abc".to_string()), Err(StorageError::UnencryptedToken));
    assert!(default_true());
}

#[test]
fn test_update_existing_account() {
    let mut accounts = vec![create_test_account("other@gmail.com")];
    let mut account = create_test_account("update@gmail.com");

    upsert_account(&mut accounts, account.clone());

    account.display_name = "Updated Name".to_string();
    upsert_account(&mut accounts, account.clone());

    let found = accounts.iter().find(|a| a.email == "update@gmail.com").unwrap();
    assert_eq!(found.display_name, "Updated Name");

    let count = accounts.iter().filter(|a| a.email == "update@gmail.com").count();
    assert_eq!(count, 1);
    assert_eq!(accounts.len(), 2);
    assert_eq!(accounts[0].email, "other@gmail.com");
}

#[test]
fn upsert_appends_new_and_is_idempotent() {
    let mut accounts = Vec::new();
    upsert_account(&mut accounts, create_test_account("user1@gmail.com"));
    upsert_account(&mut accounts, create_test_account("user2@gmail.com"));
    upsert_account(&mut accounts, create_test_account("user3@gmail.com"));
    assert_eq!(accounts.len(), 3);
    let again = create_test_account("user2@gmail.com");
    upsert_account(&mut accounts, again.clone());
    upsert_account(&mut accounts, again.clone());
    assert_eq!(accounts.len(), 3);
    assert_eq!(accounts[1].access_token, again.access_token);
    assert_eq!(accounts.iter().filter(|a| a.email == "user2@gmail.com").count(), 1);
}
