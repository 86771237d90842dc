//! Network reachability probing with bounded exponential backoff.

use vstd::prelude::*;

verus! {

/// Endpoint probed for general reachability (answers 204).
pub const CHECK_URL: &'static str = "https://www.google.com/generate_204";

/// Probe attempts before the cycle gives up.
pub const MAX_PROBE_ATTEMPTS: u32 = 4;

/// Timeout of one probe request, in seconds.
pub const PROBE_TIMEOUT_SECS: u64 = 3;

/// Delay before the first retry, in seconds.
pub const INITIAL_BACKOFF_SECS: u64 = 1;

/// Largest delay between two attempts, in seconds.
pub const MAX_BACKOFF_SECS: u64 = 30;

/// Progress of one probe sequence.
#[derive(Debug, Clone, Copy, PartialEq, Eq, Structural)]
pub struct NetworkProbe {
    /// Attempts made so far.
    pub attempt: u32,
    /// Delay to wait after the next failure, in seconds.
    pub delay_secs: u64,
    /// An attempt has failed already.
    pub had_failure: bool,
}

/// What to do after a probe attempt.
#[derive(Debug, Clone, Copy, PartialEq, Eq, Structural)]
pub enum ProbeDecision {
    /// The network answered; `had_failure` tells whether an earlier attempt failed.
    Reachable { had_failure: bool },
    /// Wait `secs` seconds, then probe again.
    RetryAfter { secs: u64 },
    /// Every attempt failed: the network is unavailable for this cycle.
    Unreachable,
}

/// The delay that follows `d`: doubled, capped at [`MAX_BACKOFF_SECS`].
pub open spec fn next_delay(d: u64) -> u64 {
    if 2 * d as int > MAX_BACKOFF_SECS as int {
        MAX_BACKOFF_SECS
    } else {
        (2 * d) as u64
    }
}

/// The delay waited after the `k`-th consecutive failure (counting from zero).
pub open spec fn backoff_delay(k: nat) -> u64
    decreases k,
{
    if k == 0 {
        INITIAL_BACKOFF_SECS
    } else {
        next_delay(backoff_delay((k - 1) as nat))
    }
}

/// One probe step: the next state and the decision after an attempt with outcome `reachable`.
pub open spec fn probe_step(p: NetworkProbe, reachable: bool) -> (NetworkProbe, ProbeDecision) {
    if reachable {
        (p, ProbeDecision::Reachable { had_failure: p.had_failure })
    } else if p.attempt as int + 1 >= MAX_PROBE_ATTEMPTS as int {
        (NetworkProbe { had_failure: true, ..p }, ProbeDecision::Unreachable)
    } else {
        (
            NetworkProbe {
                attempt: (p.attempt + 1) as u32,
                delay_secs: next_delay(p.delay_secs),
                had_failure: true,
            },
            ProbeDecision::RetryAfter { secs: p.delay_secs },
        )
    }
}

/// The state after `k` consecutive failures from a fresh probe.
pub open spec fn after_failures(k: nat) -> NetworkProbe
    decreases k,
{
    if k == 0 {
        NetworkProbe { attempt: 0, delay_secs: INITIAL_BACKOFF_SECS, had_failure: false }
    } else {
        probe_step(after_failures((k - 1) as nat), false).0
    }
}

impl NetworkProbe {
    /// A fresh probe sequence.
    pub fn new() -> (r: NetworkProbe)
        ensures
            r == after_failures(0),
    {
        NetworkProbe { attempt: 0, delay_secs: INITIAL_BACKOFF_SECS, had_failure: false }
    }

    /// Records the outcome of an attempt and decides what follows.
    pub fn on_result(&mut self, reachable: bool) -> (r: ProbeDecision)
        ensures
            (*final(self), r) == probe_step(*old(self), reachable),
    {
        if reachable {
            return ProbeDecision::Reachable { had_failure: self.had_failure };
        }
        if self.attempt >= MAX_PROBE_ATTEMPTS - 1 {
            self.had_failure = true;
            return ProbeDecision::Unreachable;
        }
        let secs = self.delay_secs;
        self.attempt = self.attempt + 1;
        self.delay_secs = if self.delay_secs > MAX_BACKOFF_SECS / 2 {
            MAX_BACKOFF_SECS
        } else {
            self.delay_secs * 2
        };
        self.had_failure = true;
        ProbeDecision::RetryAfter { secs }
    }
}

/// Across consecutive failures the waits are `backoff_delay(0), backoff_delay(1), ...`, never
/// decreasing and never above the cap; the probe retries after each of the first
/// `MAX_PROBE_ATTEMPTS - 1` failures and gives up at failure number `MAX_PROBE_ATTEMPTS`.
pub proof fn lemma_backoff_schedule(k: nat)
    ensures
        backoff_delay(k) <= backoff_delay(k + 1),
        1 <= backoff_delay(k) <= MAX_BACKOFF_SECS,
        k < MAX_PROBE_ATTEMPTS - 1 ==> probe_step(after_failures(k), false).1
            == (ProbeDecision::RetryAfter { secs: backoff_delay(k) }),
        k == MAX_PROBE_ATTEMPTS - 1 ==> probe_step(after_failures(k), false).1
            == ProbeDecision::Unreachable,
    decreases k,
{
    if k > 0 {
        lemma_backoff_schedule((k - 1) as nat);
    }
    if k < MAX_PROBE_ATTEMPTS {
        lemma_after_failures(k);
    }
}

/// Before giving up, the state after `k` failures counts `k` attempts and holds the `k`-th delay.
proof fn lemma_after_failures(k: nat)
    requires
        k < MAX_PROBE_ATTEMPTS,
    ensures
        after_failures(k).attempt == k,
        after_failures(k).delay_secs == backoff_delay(k),
        after_failures(k).had_failure == (k > 0),
    decreases k,
{
    if k > 0 {
        lemma_after_failures((k - 1) as nat);
    }
}

} // verus!
