//! Sync decisions: the per-cycle plan (probe, then each account in order) and the
//! per-account sequence (token, unread count, identity, one forced refresh on 401).

use vstd::prelude::*;
use crate::api::{is_unauthorized, GoogleUserInfo};
use crate::probe::{probe_step, NetworkProbe, ProbeDecision};

verus! {

/// Seconds between two periodic sync cycles.
pub const SYNC_INTERVAL_SECS: u64 = 2;

/// Delay before the first periodic cycle, in seconds.
pub const STARTUP_DELAY_SECS: u64 = 3;

/// Error reported for an account whose credentials need re-authorization: the identity call
/// was refused, or failed again after the forced refresh.
pub const REAUTHORIZE_MESSAGE: &'static str = "Token 无效或已过期，请重新授权";

/// Prefix of the error reported when the identity call fails for another reason.
pub const IDENTITY_FAILED_PREFIX: &'static str = "获取用户信息失败: ";

/// Prefix of the error reported when no valid access token could be had.
pub const TOKEN_FAILED_PREFIX: &'static str = "获取有效 Access Token 失败: ";

/// Prefix of the error reported when the unread count could not be fetched.
pub const UNREAD_FAILED_PREFIX: &'static str = "获取未读数失败: ";

/// Error reported when an event arrives that the sequence does not expect.
pub const UNEXPECTED_EVENT_MESSAGE: &'static str = "同步流程收到意外事件";

/// Error reported when the network probe gave up.
pub const NETWORK_UNAVAILABLE_MESSAGE: &'static str = "网络检测失败，取消本次同步: 网络不可用";

/// Result of one sync attempt for one account.
#[derive(Debug, Clone)]
pub struct AccountSyncInfo {
    /// Account email.
    pub email: String,
    /// Unread messages in the inbox.
    pub unread_count: u32,
    /// Avatar reference (local path or URL), empty when none.
    pub avatar_url: String,
    /// Display name.
    pub display_name: String,
    /// Why the identity part failed, when it did.
    pub error_message: Option<String>,
    /// A transient network problem was seen during this attempt.
    pub network_issue: bool,
}

/// Where an account's sync sequence stands.
#[derive(Debug)]
pub enum SyncPhase {
    /// Waiting for a valid access token.
    AwaitingToken,
    /// Waiting for the unread count fetched with `token`.
    AwaitingUnread { token: String },
    /// Waiting for the identity call.
    AwaitingIdentity { unread: u32 },
    /// Waiting for the forced refresh after an unauthorized identity call.
    AwaitingRefresh { unread: u32 },
    /// The result has been reported.
    Finished,
}

/// What the outside world reports to an account's sync sequence.
#[derive(Debug)]
pub enum SyncEvent {
    /// A valid access token was obtained.
    TokenReady(String),
    /// No valid access token could be obtained.
    TokenFailed(String),
    /// The unread count was fetched.
    UnreadFetched(u32),
    /// The unread count could not be fetched.
    UnreadFailed(String),
    /// The identity call answered; `avatar` is the avatar reference to report.
    IdentityFetched { info: GoogleUserInfo, avatar: String },
    /// The identity call failed with HTTP `status` (0 when no answer came).
    IdentityFailed { status: u16, message: String },
    /// The forced refresh gave this new access token.
    RefreshSucceeded(String),
    /// The forced refresh failed.
    RefreshFailed(String),
}

/// What an account's sync sequence asks for next.
#[derive(Debug)]
pub enum SyncAction {
    /// Fetch the unread count with this token.
    FetchUnread(String),
    /// Call the identity endpoint with this token.
    FetchIdentity(String),
    /// Refresh the access token regardless of its expiry.
    ForceRefresh,
    /// Deliver this result through the callback; the sequence is over.
    Report(Result<AccountSyncInfo, String>),
}

/// The sync sequence of one account within a cycle.
#[derive(Debug)]
pub struct AccountSync {
    /// The account's email.
    pub email: String,
    /// The cycle's probe saw a transient failure.
    pub network_issue: bool,
    /// Where the sequence stands.
    pub phase: SyncPhase,
    /// Identity calls requested so far.
    pub identity_requests: u32,
    /// Forced refreshes requested so far.
    pub refreshes: u32,
}

/// `info` is the fallback result for `s` with `unread` and error `message`: the account's
/// email as name, no avatar.
pub open spec fn fallback_report(s: AccountSync, unread: u32, message: Seq<char>, info: AccountSyncInfo) -> bool {
    &&& info.email@ == s.email@
    &&& info.unread_count == unread
    &&& info.avatar_url@ == Seq::<char>::empty()
    &&& info.display_name@ == s.email@
    &&& info.error_message matches Some(m) && m@ == message
    &&& info.network_issue == s.network_issue
}

/// `info` is the success result for `s` built from the identity answer.
pub open spec fn identity_report(
    s: AccountSync,
    unread: u32,
    user: GoogleUserInfo,
    avatar: String,
    info: AccountSyncInfo,
) -> bool {
    &&& info.email == user.email
    &&& info.unread_count == unread
    &&& info.avatar_url == avatar
    &&& match user.name {
        Some(n) => info.display_name == n,
        None => info.display_name@ == s.email@,
    }
    &&& info.error_message is None
    &&& info.network_issue == s.network_issue
}

/// `r` reports the error `prefix` followed by `message`.
pub open spec fn error_report(r: SyncAction, prefix: Seq<char>, message: Seq<char>) -> bool {
    r matches SyncAction::Report(Err(m)) && m@ == prefix + message
}

fn fallback(s: &AccountSync, unread: u32, message: String) -> (r: AccountSyncInfo)
    ensures
        fallback_report(*s, unread, message@, r),
{
    AccountSyncInfo {
        email: s.email.clone(),
        unread_count: unread,
        avatar_url: String::new(),
        display_name: s.email.clone(),
        error_message: Some(message),
        network_issue: s.network_issue,
    }
}

impl AccountSync {
    /// The counters agree with the phase: one identity call per token, at most one forced
    /// refresh.
    pub open spec fn wf(&self) -> bool {
        &&& self.refreshes <= 1
        &&& match self.phase {
            SyncPhase::AwaitingToken => self.identity_requests == 0 && self.refreshes == 0,
            SyncPhase::AwaitingUnread { .. } => self.identity_requests == 0 && self.refreshes == 0,
            SyncPhase::AwaitingIdentity { .. } => self.identity_requests == self.refreshes + 1,
            SyncPhase::AwaitingRefresh { .. } => self.identity_requests == 1 && self.refreshes == 1,
            SyncPhase::Finished => self.identity_requests <= self.refreshes + 1,
        }
    }

    /// A new sequence for the account `email`, within a cycle whose probe saw a transient
    /// failure when `network_issue` holds.
    pub fn new(email: String, network_issue: bool) -> (r: AccountSync)
        ensures
            r.wf(),
            r.email == email,
            r.network_issue == network_issue,
            r.phase is AwaitingToken,
            r.identity_requests == 0,
            r.refreshes == 0,
    {
        AccountSync {
            email,
            network_issue,
            phase: SyncPhase::AwaitingToken,
            identity_requests: 0,
            refreshes: 0,
        }
    }

    /// Takes the next event and decides the next action.
    pub fn step(&mut self, event: SyncEvent) -> (r: SyncAction)
        requires
            old(self).wf(),
        ensures
            final(self).wf(),
            final(self).email == old(self).email,
            final(self).network_issue == old(self).network_issue,
            // at most one forced refresh, and one identity retry after it
            r is ForceRefresh ==> old(self).refreshes == 0 && final(self).refreshes == 1,
            !(r is ForceRefresh) ==> final(self).refreshes == old(self).refreshes,
            r is FetchIdentity ==> final(self).identity_requests == old(self).identity_requests + 1,
            !(r is FetchIdentity) ==> final(self).identity_requests == old(self).identity_requests,
            r is Report <==> final(self).phase is Finished,
            match (old(self).phase, event) {
                (SyncPhase::AwaitingToken, SyncEvent::TokenReady(t)) => r == SyncAction::FetchUnread(t)
                    && final(self).phase == (SyncPhase::AwaitingUnread { token: t }),
                (SyncPhase::AwaitingToken, SyncEvent::TokenFailed(m)) => error_report(r, TOKEN_FAILED_PREFIX@, m@),
                (SyncPhase::AwaitingUnread { token }, SyncEvent::UnreadFetched(n)) => r == SyncAction::FetchIdentity(token)
                    && final(self).phase == (SyncPhase::AwaitingIdentity { unread: n }),
                (SyncPhase::AwaitingUnread { .. }, SyncEvent::UnreadFailed(m)) => error_report(r, UNREAD_FAILED_PREFIX@, m@),
                (SyncPhase::AwaitingIdentity { unread }, SyncEvent::IdentityFetched { info, avatar }) =>
                    r matches SyncAction::Report(Ok(i)) && identity_report(*old(self), unread, info, avatar, i),
                (SyncPhase::AwaitingIdentity { unread }, SyncEvent::IdentityFailed { status, message }) =>
                    if status == 401 && old(self).refreshes == 0 {
                        r is ForceRefresh && final(self).phase == (SyncPhase::AwaitingRefresh { unread })
                    } else if status == 401 || old(self).refreshes > 0 {
                        r matches SyncAction::Report(Ok(i)) && fallback_report(*old(self), unread, REAUTHORIZE_MESSAGE@, i)
                    } else {
                        r matches SyncAction::Report(Ok(i)) && fallback_report(
                            *old(self),
                            unread,
                            IDENTITY_FAILED_PREFIX@ + message@,
                            i,
                        )
                    },
                (SyncPhase::AwaitingRefresh { unread }, SyncEvent::RefreshSucceeded(t)) => r == SyncAction::FetchIdentity(t)
                    && final(self).phase == (SyncPhase::AwaitingIdentity { unread }),
                (SyncPhase::AwaitingRefresh { unread }, SyncEvent::RefreshFailed(_)) =>
                    r matches SyncAction::Report(Ok(i)) && fallback_report(*old(self), unread, REAUTHORIZE_MESSAGE@, i),
                _ => r matches SyncAction::Report(Err(m)) && m@ == UNEXPECTED_EVENT_MESSAGE@,
            },
    {
        let mut phase = SyncPhase::Finished;
        std::mem::swap(&mut phase, &mut self.phase);
        match (phase, event) {
            (SyncPhase::AwaitingToken, SyncEvent::TokenReady(t)) => {
                self.phase = SyncPhase::AwaitingUnread { token: t.clone() };
                SyncAction::FetchUnread(t)
            },
            (SyncPhase::AwaitingToken, SyncEvent::TokenFailed(m)) => {
                SyncAction::Report(Err(String::from_str(TOKEN_FAILED_PREFIX).concat(m.as_str())))
            },
            (SyncPhase::AwaitingUnread { token }, SyncEvent::UnreadFetched(n)) => {
                self.phase = SyncPhase::AwaitingIdentity { unread: n };
                self.identity_requests = self.identity_requests + 1;
                SyncAction::FetchIdentity(token)
            },
            (SyncPhase::AwaitingUnread { .. }, SyncEvent::UnreadFailed(m)) => {
                SyncAction::Report(Err(String::from_str(UNREAD_FAILED_PREFIX).concat(m.as_str())))
            },
            (SyncPhase::AwaitingIdentity { unread }, SyncEvent::IdentityFetched { info, avatar }) => {
                let display_name = match info.name {
                    Some(n) => n,
                    None => self.email.clone(),
                };
                SyncAction::Report(
                    Ok(
                        AccountSyncInfo {
                            email: info.email,
                            unread_count: unread,
                            avatar_url: avatar,
                            display_name,
                            error_message: None,
                            network_issue: self.network_issue,
                        },
                    ),
                )
            },
            (SyncPhase::AwaitingIdentity { unread }, SyncEvent::IdentityFailed { status, message }) => {
                if is_unauthorized(status) && self.refreshes == 0 {
                    self.phase = SyncPhase::AwaitingRefresh { unread };
                    self.refreshes = 1;
                    SyncAction::ForceRefresh
                } else if is_unauthorized(status) || self.refreshes > 0 {
                    SyncAction::Report(Ok(fallback(self, unread, String::from_str(REAUTHORIZE_MESSAGE))))
                } else {
                    let text = String::from_str(IDENTITY_FAILED_PREFIX).concat(message.as_str());
                    SyncAction::Report(Ok(fallback(self, unread, text)))
                }
            },
            (SyncPhase::AwaitingRefresh { unread }, SyncEvent::RefreshSucceeded(t)) => {
                self.phase = SyncPhase::AwaitingIdentity { unread };
                self.identity_requests = self.identity_requests + 1;
                SyncAction::FetchIdentity(t)
            },
            (SyncPhase::AwaitingRefresh { unread }, SyncEvent::RefreshFailed(_)) => {
                SyncAction::Report(Ok(fallback(self, unread, String::from_str(REAUTHORIZE_MESSAGE))))
            },
            _ => SyncAction::Report(Err(String::from_str(UNEXPECTED_EVENT_MESSAGE))),
        }
    }
}

/// What a sync cycle asks for next.
#[derive(Debug, Clone, Copy, PartialEq, Eq, Structural)]
pub enum CycleStep {
    /// Probe the network.
    ProbeNetwork,
    /// Wait `secs` seconds, then probe again.
    WaitThenProbe { secs: u64 },
    /// Run the sync sequence of the account at `index` of the loaded list.
    SyncAccount { index: usize, network_issue: bool },
    /// Report a network-unavailable error for the account at `index`; the rest are skipped.
    ReportNetworkUnavailable { index: usize },
    /// The cycle is over.
    Done,
}

/// One sync cycle over the accounts loaded from storage, in their stored order.
#[derive(Debug, Clone, Copy, PartialEq, Eq, Structural)]
pub struct SyncCycle {
    /// Number of accounts loaded.
    pub n_accounts: usize,
    /// Index of the next account to sync.
    pub next: usize,
    /// The network probe of this cycle.
    pub probe: NetworkProbe,
    /// The probe saw a transient failure before succeeding.
    pub network_issue: bool,
    /// The probe has succeeded.
    pub reachable: bool,
}

impl SyncCycle {
    /// Starts a cycle over `n_accounts` accounts: with none there is nothing to do (no probe,
    /// no API call, no result); otherwise the network is probed first.
    pub fn start(n_accounts: usize) -> (r: (SyncCycle, CycleStep))
        ensures
            r.0.n_accounts == n_accounts,
            r.0.next == 0,
            !r.0.reachable,
            r.0.probe == crate::probe::after_failures(0),
            n_accounts == 0 ==> r.1 == CycleStep::Done,
            n_accounts > 0 ==> r.1 == CycleStep::ProbeNetwork,
    {
        let cycle = SyncCycle {
            n_accounts,
            next: 0,
            probe: NetworkProbe::new(),
            network_issue: false,
            reachable: false,
        };
        if n_accounts == 0 {
            (cycle, CycleStep::Done)
        } else {
            (cycle, CycleStep::ProbeNetwork)
        }
    }

    /// The cycle is waiting for a probe outcome.
    pub open spec fn probing(&self) -> bool {
        !self.reachable && self.next == 0 && self.n_accounts > 0
    }

    /// Records a probe outcome: the first account is synced once the network answers, the
    /// probe is retried after the backoff delay, or the cycle ends with a network error. A
    /// probe outcome that arrives when none is awaited ends nothing and changes nothing.
    pub fn on_probe(&mut self, reachable: bool) -> (r: CycleStep)
        ensures
            !old(self).probing() ==> r == CycleStep::Done && *final(self) == *old(self),
            old(self).probing() ==> final(self).probe == probe_step(old(self).probe, reachable).0,
            final(self).n_accounts == old(self).n_accounts,
            old(self).probing() ==> match probe_step(old(self).probe, reachable).1 {
                ProbeDecision::Reachable { had_failure } => {
                    &&& r == (CycleStep::SyncAccount { index: 0, network_issue: had_failure })
                    &&& final(self).reachable
                    &&& final(self).network_issue == had_failure
                    &&& final(self).next == 1
                },
                ProbeDecision::RetryAfter { secs } => {
                    &&& r == (CycleStep::WaitThenProbe { secs })
                    &&& final(self).probing()
                },
                ProbeDecision::Unreachable => {
                    &&& r == (CycleStep::ReportNetworkUnavailable { index: 0 })
                    &&& !final(self).reachable
                    &&& final(self).next == final(self).n_accounts
                },
            },
    {
        if self.reachable || self.next != 0 || self.n_accounts == 0 {
            return CycleStep::Done;
        }
        match self.probe.on_result(reachable) {
            ProbeDecision::Reachable { had_failure } => {
                self.reachable = true;
                self.network_issue = had_failure;
                self.next = 1;
                CycleStep::SyncAccount { index: 0, network_issue: had_failure }
            },
            ProbeDecision::RetryAfter { secs } => CycleStep::WaitThenProbe { secs },
            ProbeDecision::Unreachable => {
                self.next = self.n_accounts;
                CycleStep::ReportNetworkUnavailable { index: 0 }
            },
        }
    }

    /// Records that the current account's result was delivered: the next account in stored
    /// order follows, or the cycle ends.
    pub fn on_account_done(&mut self) -> (r: CycleStep)
        requires
            old(self).next <= old(self).n_accounts,
        ensures
            final(self).n_accounts == old(self).n_accounts,
            final(self).network_issue == old(self).network_issue,
            final(self).reachable == old(self).reachable,
            final(self).probe == old(self).probe,
            old(self).reachable && old(self).next < old(self).n_accounts ==> {
                &&& r == (CycleStep::SyncAccount { index: old(self).next, network_issue: old(self).network_issue })
                &&& final(self).next == old(self).next + 1
            },
            !(old(self).reachable && old(self).next < old(self).n_accounts) ==> r == CycleStep::Done
                && final(self).next == old(self).next,
    {
        if self.reachable && self.next < self.n_accounts {
            let index = self.next;
            self.next = self.next + 1;
            CycleStep::SyncAccount { index, network_issue: self.network_issue }
        } else {
            CycleStep::Done
        }
    }
}

} // verus!
