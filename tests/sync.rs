use nanomail::api::{avatar_reference, safe_file_stem, unread_count_from_label, GmailApiClient, GoogleUserInfo};
use nanomail::probe::{NetworkProbe, ProbeDecision, MAX_BACKOFF_SECS, MAX_PROBE_ATTEMPTS};
use nanomail::sync::{
    AccountSync, CycleStep, SyncAction, SyncCycle, SyncEvent, REAUTHORIZE_MESSAGE, SYNC_INTERVAL_SECS,
};

#[test]
fn test_sync_interval() {
    assert_eq!(SYNC_INTERVAL_SECS, 2);
}

#[test]
fn test_api_client_creation() {
    let client = GmailApiClient::new("test_token".to_string());
    assert_eq!(client.access_token, "test_token");
}

#[test]
fn backoff_doubles_and_gives_up_at_the_ceiling() {
    let mut probe = NetworkProbe::new();
    let mut delays = Vec::new();
    loop {
        match probe.on_result(false) {
            ProbeDecision::RetryAfter { secs } => delays.push(secs),
            ProbeDecision::Unreachable => break,
            ProbeDecision::Reachable { .. } => panic!("never reachable"),
        }
    }
    assert_eq!(delays, vec![1, 2, 4]);
    assert_eq!(delays.len() + 1, MAX_PROBE_ATTEMPTS as usize);
    assert!(delays.windows(2).all(|w| w[0] <= w[1]));
    assert!(delays.iter().all(|d| *d <= MAX_BACKOFF_SECS));
}

#[test]
fn backoff_is_capped() {
    let mut probe = NetworkProbe { attempt: 0, delay_secs: 20, had_failure: false };
    assert_eq!(probe.on_result(false), ProbeDecision::RetryAfter { secs: 20 });
    assert_eq!(probe.delay_secs, 30);
    assert_eq!(probe.on_result(false), ProbeDecision::RetryAfter { secs: 30 });
    assert_eq!(probe.delay_secs, 30);
}

#[test]
fn success_after_failure_is_flagged() {
    let mut probe = NetworkProbe::new();
    assert_eq!(probe.on_result(false), ProbeDecision::RetryAfter { secs: 1 });
    assert_eq!(probe.on_result(true), ProbeDecision::Reachable { had_failure: true });
    let mut fresh = NetworkProbe::new();
    assert_eq!(fresh.on_result(true), ProbeDecision::Reachable { had_failure: false });
}

#[test]
fn no_accounts_means_no_work() {
    let (_, step) = SyncCycle::start(0);
    assert_eq!(step, CycleStep::Done);
}

#[test]
fn cycle_visits_accounts_in_order() {
    let (mut cycle, step) = SyncCycle::start(3);
    assert_eq!(step, CycleStep::ProbeNetwork);
    assert_eq!(cycle.on_probe(false), CycleStep::WaitThenProbe { secs: 1 });
    assert_eq!(cycle.on_probe(true), CycleStep::SyncAccount { index: 0, network_issue: true });
    assert_eq!(cycle.on_account_done(), CycleStep::SyncAccount { index: 1, network_issue: true });
    assert_eq!(cycle.on_account_done(), CycleStep::SyncAccount { index: 2, network_issue: true });
    assert_eq!(cycle.on_account_done(), CycleStep::Done);
}

#[test]
fn unreachable_network_skips_all_accounts() {
    let (mut cycle, _) = SyncCycle::start(2);
    assert_eq!(cycle.on_probe(false), CycleStep::WaitThenProbe { secs: 1 });
    assert_eq!(cycle.on_probe(false), CycleStep::WaitThenProbe { secs: 2 });
    assert_eq!(cycle.on_probe(false), CycleStep::WaitThenProbe { secs: 4 });
    assert_eq!(cycle.on_probe(false), CycleStep::ReportNetworkUnavailable { index: 0 });
    assert_eq!(cycle.on_account_done(), CycleStep::Done);
}

fn user(email: &str, name: Option<&str>) -> GoogleUserInfo {
    GoogleUserInfo { name: name.map(|n| n.to_string()), picture: None, email: email.to_string() }
}

#[test]
fn account_sequence_success() {
    let mut s = AccountSync::new("a@gmail.com".to_string(), false);
    assert!(matches!(s.step(SyncEvent::TokenReady("tok".to_string())), SyncAction::FetchUnread(ref t) if t == "tok"));
    assert!(matches!(s.step(SyncEvent::UnreadFetched(7)), SyncAction::FetchIdentity(ref t) if t == "tok"));
    match s.step(SyncEvent::IdentityFetched { info: user("a@gmail.com", Some("Alice")), avatar: "/x.png".to_string() }) {
        SyncAction::Report(Ok(info)) => {
            assert_eq!(info.unread_count, 7);
            assert_eq!(info.display_name, "Alice");
            assert_eq!(info.avatar_url, "/x.png");
            assert!(info.error_message.is_none());
            assert!(!info.network_issue);
        }
        other => panic!("unexpected {:?}", other),
    }
}

#[test]
fn unauthorized_identity_refreshes_once_and_retries_once() {
    let mut s = AccountSync::new("a@gmail.com".to_string(), true);
    s.step(SyncEvent::TokenReady("tok".to_string()));
    s.step(SyncEvent::UnreadFetched(3));
    let first = s.step(SyncEvent::IdentityFailed { status: 401, message: "401".to_string() });
    assert!(matches!(first, SyncAction::ForceRefresh));
    let retry = s.step(SyncEvent::RefreshSucceeded("tok2".to_string()));
    assert!(matches!(retry, SyncAction::FetchIdentity(ref t) if t == "tok2"));
    match s.step(SyncEvent::IdentityFailed { status: 401, message: "401".to_string() }) {
        SyncAction::Report(Ok(info)) => {
            assert_eq!(info.error_message.as_deref(), Some(REAUTHORIZE_MESSAGE));
            assert_eq!(info.unread_count, 3);
            assert_eq!(info.display_name, "a@gmail.com");
            assert!(info.network_issue);
        }
        other => panic!("unexpected {:?}", other),
    }
    assert_eq!(s.refreshes, 1);
    assert_eq!(s.identity_requests, 2);
}

#[test]
fn failed_forced_refresh_reports_reauthorization() {
    let mut s = AccountSync::new("a@gmail.com".to_string(), false);
    s.step(SyncEvent::TokenReady("tok".to_string()));
    s.step(SyncEvent::UnreadFetched(0));
    s.step(SyncEvent::IdentityFailed { status: 401, message: "401".to_string() });
    match s.step(SyncEvent::RefreshFailed("invalid_grant".to_string())) {
        SyncAction::Report(Ok(info)) => assert_eq!(info.error_message.as_deref(), Some(REAUTHORIZE_MESSAGE)),
        other => panic!("unexpected {:?}", other),
    }
}

#[test]
fn other_failures_are_reported() {
    let mut s = AccountSync::new("a@gmail.com".to_string(), false);
    match s.step(SyncEvent::TokenFailed("boom".to_string())) {
        SyncAction::Report(Err(m)) => assert!(m.ends_with("boom")),
        other => panic!("unexpected {:?}", other),
    }
    let mut s = AccountSync::new("a@gmail.com".to_string(), false);
    s.step(SyncEvent::TokenReady("tok".to_string()));
    match s.step(SyncEvent::UnreadFailed("down".to_string())) {
        SyncAction::Report(Err(m)) => assert!(m.ends_with("down")),
        other => panic!("unexpected {:?}", other),
    }
    let mut s = AccountSync::new("a@gmail.com".to_string(), false);
    s.step(SyncEvent::TokenReady("tok".to_string()));
    s.step(SyncEvent::UnreadFetched(1));
    match s.step(SyncEvent::IdentityFailed { status: 403, message: "scope".to_string() }) {
        SyncAction::Report(Ok(info)) => {
            assert_eq!(info.error_message.as_deref(), Some("获取用户信息失败: scope"));
            assert_eq!(info.unread_count, 1);
        }
        other => panic!("unexpected {:?}", other),
    }
    let mut s = AccountSync::new("a@gmail.com".to_string(), false);
    assert!(matches!(s.step(SyncEvent::UnreadFetched(1)), SyncAction::Report(Err(_))));
}

#[test]
fn api_helpers() {
    assert_eq!(unread_count_from_label(Some(12)), 12);
    assert_eq!(unread_count_from_label(None), 0);
    assert_eq!(avatar_reference(None, Some("c".to_string())), "");
    assert_eq!(avatar_reference(Some("u".to_string()), Some("c".to_string())), "c");
    assert_eq!(avatar_reference(Some("u".to_string()), None), "u");
    assert_eq!(safe_file_stem("first.last@gmail.com"), "first_last_gmail_com");
}

#[test]
fn failed_retry_after_refresh_asks_for_reauthorization() {
    let mut s = AccountSync::new("a@gmail.com".to_string(), false);
    s.step(SyncEvent::TokenReady("tok".to_string()));
    s.step(SyncEvent::UnreadFetched(2));
    assert!(matches!(
        s.step(SyncEvent::IdentityFailed { status: 401, message: "401".to_string() }),
        SyncAction::ForceRefresh
    ));
    s.step(SyncEvent::RefreshSucceeded("tok2".to_string()));
    match s.step(SyncEvent::IdentityFailed { status: 500, message: "server error".to_string() }) {
        SyncAction::Report(Ok(info)) => {
            assert_eq!(info.email, "a@gmail.com");
            assert_eq!(info.display_name, "a@gmail.com");
            assert_eq!(info.avatar_url, "");
            assert_eq!(info.error_message.as_deref(), Some(REAUTHORIZE_MESSAGE));
        }
        other => panic!("unexpected {:?}", other),
    }
}

#[test]
fn probe_outcome_out_of_order_changes_nothing() {
    let (mut cycle, _) = SyncCycle::start(0);
    assert_eq!(cycle.on_probe(true), CycleStep::Done);
    let (mut cycle, _) = SyncCycle::start(1);
    cycle.on_probe(true);
    let before = cycle;
    assert_eq!(cycle.on_probe(true), CycleStep::Done);
    assert_eq!(cycle, before);
}
