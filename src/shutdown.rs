use vstd::prelude::*;

verus! {

/// Fewest lifetime connections before an idle server may shut down.
pub const MIN_TOTAL_CONNECTIONS: u64 = 2;

/// Consecutive idle samples that trigger shutdown in the polling design.
pub const IDLE_SAMPLES: u32 = 2;

/// Seconds between two samples of the polling design.
pub const SAMPLE_INTERVAL_SECS: u64 = 5;

/// The two thresholds of the idle-shutdown rule.
#[derive(PartialEq, Eq, Structural, Clone, Copy, Debug)]
pub struct ShutdownPolicy {
    /// An empty live set counts as idle only once this many connections were made.
    pub min_total_connections: u64,
    /// How many idle samples in a row the polling design waits for.
    pub idle_samples: u32,
}

impl ShutdownPolicy {
    /// Whether a live-set size and lifetime total count as idle.
    pub open spec fn is_idle(self, active: nat, total: nat) -> bool {
        active == 0 && total >= self.min_total_connections
    }

    /// The thresholds the service uses unless told otherwise.
    pub fn standard() -> (r: Self)
        ensures
            r.min_total_connections == MIN_TOTAL_CONNECTIONS,
            r.idle_samples == IDLE_SAMPLES,
    {
        ShutdownPolicy { min_total_connections: MIN_TOTAL_CONNECTIONS, idle_samples: IDLE_SAMPLES }
    }

    /// Whether a live-set size and lifetime total count as idle.
    pub fn idle(&self, active: usize, total: u64) -> (r: bool)
        ensures
            r == self.is_idle(active as nat, total as nat),
    {
        active == 0 && total >= self.min_total_connections
    }
}

/// A one-shot shutdown flag: it goes from down to raised once and stays raised.
pub struct ShutdownSignal {
    raised: bool,
}

impl ShutdownSignal {
    pub closed spec fn is_raised(&self) -> bool {
        self.raised
    }

    /// A signal that has not been raised.
    pub fn new() -> (r: Self)
        ensures
            !r.is_raised(),
    {
        ShutdownSignal { raised: false }
    }

    /// Raises the signal. Returns true exactly when this call is the one
    /// that raised it.
    pub fn raise(&mut self) -> (first: bool)
        ensures
            final(self).is_raised(),
            first == !old(self).is_raised(),
    {
        let first = !self.raised;
        self.raised = true;
        first
    }

    /// Whether the signal has been raised.
    pub fn raised(&self) -> (r: bool)
        ensures
            r == self.is_raised(),
    {
        self.raised
    }
}

/// The state of the polling design: how many idle samples were seen in a
/// row (capped at the policy's count) and whether shutdown was signalled.
pub struct MonitorState {
    pub policy: ShutdownPolicy,
    pub streak: nat,
    pub fired: bool,
}

impl MonitorState {
    /// The streak after one sample.
    pub open spec fn next_streak(self, active: nat, total: nat) -> nat {
        if self.policy.is_idle(active, total) {
            if self.streak < self.policy.idle_samples { self.streak + 1 } else { self.streak }
        } else {
            0
        }
    }

    /// Whether this sample is the one that triggers shutdown.
    pub open spec fn fires(self, active: nat, total: nat) -> bool {
        &&& !self.fired
        &&& self.policy.is_idle(active, total)
        &&& self.next_streak(active, total) >= self.policy.idle_samples
    }

    /// The state after one sample.
    pub open spec fn step(self, active: nat, total: nat) -> MonitorState {
        MonitorState {
            policy: self.policy,
            streak: self.next_streak(active, total),
            fired: self.fired || self.fires(active, total),
        }
    }
}

/// The polling idle-shutdown rule: sample the live-set size periodically;
/// after enough idle samples in a row, signal shutdown, once. A busy sample
/// resets the count.
pub struct IdleMonitor {
    policy: ShutdownPolicy,
    streak: u32,
    fired: bool,
}

impl View for IdleMonitor {
    type V = MonitorState;

    closed spec fn view(&self) -> MonitorState {
        MonitorState { policy: self.policy, streak: self.streak as nat, fired: self.fired }
    }
}

impl IdleMonitor {
    /// A monitor that has seen no sample.
    pub fn new(policy: ShutdownPolicy) -> (r: Self)
        ensures
            r@ == (MonitorState { policy, streak: 0, fired: false }),
    {
        IdleMonitor { policy, streak: 0, fired: false }
    }

    /// Takes one sample of the live-set size and lifetime total. Returns true
    /// exactly when this sample triggers shutdown.
    pub fn sample(&mut self, active: usize, total: u64) -> (fire: bool)
        ensures
            fire == old(self)@.fires(active as nat, total as nat),
            final(self)@ == old(self)@.step(active as nat, total as nat),
    {
        if self.policy.idle(active, total) {
            if self.streak < self.policy.idle_samples {
                self.streak = self.streak + 1;
            }
            let fire = !self.fired && self.streak >= self.policy.idle_samples;
            if fire {
                self.fired = true;
            }
            fire
        } else {
            self.streak = 0;
            false
        }
    }

    /// The thresholds this monitor applies.
    pub fn policy(&self) -> (r: ShutdownPolicy)
        ensures
            r == self@.policy,
    {
        self.policy
    }

    /// Whether this monitor has triggered shutdown.
    pub fn has_fired(&self) -> (r: bool)
        ensures
            r == self@.fired,
    {
        self.fired
    }
}

/// With a two-sample policy, two idle samples in a row from a monitor that
/// has not fired yet make it fire, and exactly one of the two samples is the
/// one that fires.
pub proof fn lemma_two_idle_samples_fire(s: MonitorState, total: nat)
    requires
        s.policy.idle_samples == 2,
        s.streak <= 2,
        !s.fired,
        total >= s.policy.min_total_connections,
    ensures
        s.step(0, total).step(0, total).fired,
        s.fires(0, total) != s.step(0, total).fires(0, total),
{
}

/// With a two-sample policy and no idle sample pending, a busy sample between
/// two idle ones resets the count, so none of the three fires.
pub proof fn lemma_busy_sample_resets(s: MonitorState, total: nat, busy: nat)
    requires
        s.policy.idle_samples == 2,
        s.streak == 0,
        !s.fired,
        busy > 0,
    ensures
        !s.fires(0, total),
        !s.step(0, total).fires(busy, total),
        !s.step(0, total).step(busy, total).fires(0, total),
        !s.step(0, total).step(busy, total).step(0, total).fired,
{
}

/// Once a monitor has fired, no later sample fires again and it stays fired.
pub proof fn lemma_fires_once(s: MonitorState, active: nat, total: nat)
    requires
        s.fired,
    ensures
        !s.fires(active, total),
        s.step(active, total).fired,
{
}

} // verus!
