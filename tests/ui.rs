use nanomail::account::GmailAccount;
use nanomail::sync::AccountSyncInfo;
use nanomail::ui::{
    apply_sync_info, new_mail_notification_body, Account, TrayCommand, TrayIconState, WindowCommand,
    THUMBNAIL_SIZE,
};

#[test]
fn test_thumbnail_size() {
    assert_eq!(THUMBNAIL_SIZE, 48);
}

#[test]
fn mock_rows() {
    let one = Account::mock();
    assert_eq!(one.email, "crayonape@gmail.com");
    assert_eq!(one.unread_count, 22);
    let rows = Account::mock_multiple(4);
    assert_eq!(rows.len(), 4);
    assert_eq!(rows[0].email, "user1@gmail.com");
    assert_eq!(rows[3].display_name, "Test User 4");
    assert_eq!(rows[2].unread_count, 30);
    assert!(rows[0].has_error && !rows[1].has_error && rows[3].has_error);
    assert!(Account::mock_multiple(0).is_empty());
}

#[test]
fn test_convert_to_slint_account() {
    let key = [2u8; 32];
    let account = GmailAccount::new_at("test@gmail.com".to_string(), "Test User".to_string(), "token", "refresh", 3600, 0, &key).unwrap();
    let row = Account::from_gmail(&account);
    assert_eq!(row.email.as_str(), "test@gmail.com");
    assert_eq!(row.display_name.as_str(), "Test User");
    assert_eq!(row.unread_count, 0);
    assert!(!row.is_loading);
    assert!(!row.has_error);
}

#[test]
fn sync_result_updates_matching_row() {
    let mut rows = Account::mock_multiple(2);
    let ok = AccountSyncInfo {
        email: "user2@gmail.com".to_string(),
        unread_count: 5,
        avatar_url: "/a.png".to_string(),
        display_name: "x".to_string(),
        error_message: None,
        network_issue: false,
    };
    apply_sync_info(&mut rows, &ok);
    assert_eq!(rows[1].unread_count, 5);
    assert_eq!(rows[1].avatar_url, "/a.png");
    assert!(!rows[1].has_error);
    assert_eq!(rows[0].unread_count, 10);
    let failed = AccountSyncInfo { unread_count: 99, error_message: Some("e".to_string()), ..ok };
    apply_sync_info(&mut rows, &failed);
    assert_eq!(rows[1].unread_count, 5);
    assert!(rows[1].has_error);
}

#[test]
fn notification_text() {
    assert_eq!(new_mail_notification_body("a@b.c", 1), "a@b.c 收到 1 封新邮件");
    assert_eq!(new_mail_notification_body("a@b.c", 12), "a@b.c 收到 12 封新邮件");
}

#[test]
fn tray_values() {
    let cmd = WindowCommand::UpdateIcon(TrayIconState::Unread);
    assert_eq!(cmd, WindowCommand::UpdateIcon(TrayIconState::Unread));
    assert_ne!(TrayCommand::ShowWindow, TrayCommand::HideWindow);
}
