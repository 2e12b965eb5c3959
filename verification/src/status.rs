//! The background status loop's schedule.
//!
//! Once started, the loop repeats forever: invoke the status-refresh
//! operation, suspend for a fixed interval, repeat. It never stops on a
//! failed refresh; the next tick comes regardless of the prior outcome.
//! `StatusLoop` is the loop's bookkeeping: the caller performs the refresh
//! and the suspension, and records each turn here.

use vstd::prelude::*;

verus! {

/// Seconds the loop suspends between status refreshes.
pub const REFRESH_INTERVAL_SECS: u64 = 60;

/// Bookkeeping of the running status loop: how many refreshes have run and
/// how far into its schedule the loop is.
pub struct StatusLoop {
    /// Refresh invocations performed so far.
    pub ticks: u64,
    /// Seconds since the loop started, by the loop's own schedule.
    pub elapsed_secs: u64,
}

impl StatusLoop {
    /// The loop keeps one refresh per interval: after `ticks` refreshes,
    /// `ticks * 60` seconds of its schedule have passed.
    pub open spec fn wf(self) -> bool {
        self.elapsed_secs == self.ticks * REFRESH_INTERVAL_SECS
    }

    /// One turn of the loop, as a value: a refresh just ran with outcome
    /// `refresh_ok`, and the schedule advances by one interval. The outcome
    /// does not appear on the right-hand side: the next tick comes whether
    /// the refresh succeeded or failed.
    pub open spec fn step(self, refresh_ok: bool) -> StatusLoop {
        StatusLoop {
            ticks: (self.ticks + 1) as u64,
            elapsed_secs: (self.elapsed_secs + REFRESH_INTERVAL_SECS) as u64,
        }
    }

    /// A loop that has not yet run a refresh.
    pub fn new() -> (s: StatusLoop)
        ensures
            s.ticks == 0,
            s.elapsed_secs == 0,
            s.wf(),
    {
        StatusLoop { ticks: 0, elapsed_secs: 0 }
    }

    /// Record one turn: a refresh ran with outcome `refresh_ok`; the result
    /// is how long to suspend before the next one. A failed refresh advances
    /// the schedule exactly as a successful one does.
    pub fn on_tick(&mut self, refresh_ok: bool) -> (wait_secs: u64)
        requires
            old(self).ticks < u64::MAX,
            old(self).elapsed_secs <= u64::MAX - REFRESH_INTERVAL_SECS,
        ensures
            wait_secs == REFRESH_INTERVAL_SECS,
            *final(self) == old(self).step(refresh_ok),
            old(self).wf() ==> final(self).wf(),
    {
        self.ticks = self.ticks + 1;
        self.elapsed_secs = self.elapsed_secs + REFRESH_INTERVAL_SECS;
        REFRESH_INTERVAL_SECS
    }
}

/// Seconds into the schedule at which refresh number `n` begins, counting
/// refreshes from zero: the first runs at once, each later one a full
/// interval after the one before it.
pub open spec fn refresh_instant(n: nat) -> nat
    decreases n,
{
    if n == 0 {
        0
    } else {
        refresh_instant((n - 1) as nat) + (REFRESH_INTERVAL_SECS as nat)
    }
}

/// Law: once started, the loop invokes the refresh operation at a steady
/// sixty-second cadence, indefinitely: refresh `n` begins `60 * n` seconds
/// into the schedule.
pub proof fn lemma_refresh_cadence(n: nat)
    ensures
        refresh_instant(n) == n * (REFRESH_INTERVAL_SECS as nat),
    decreases n,
{
    if n > 0 {
        lemma_refresh_cadence((n - 1) as nat);
    }
}

/// Law: the refresh outcome does not change the loop's course. A turn after
/// a failed refresh leaves the very same state as a turn after a successful
/// one, so an arbitrary run of failures stops nothing.
pub proof fn lemma_refresh_outcome_ignored(s: StatusLoop, outcome_a: bool, outcome_b: bool)
    ensures
        s.step(outcome_a) == s.step(outcome_b),
{
}

/// Law: a well-formed loop state that has performed `ticks` refreshes sits
/// exactly at the schedule's instant for refresh number `ticks`.
pub proof fn lemma_wf_matches_schedule(s: StatusLoop)
    requires
        s.wf(),
    ensures
        s.elapsed_secs == refresh_instant(s.ticks as nat),
{
    lemma_refresh_cadence(s.ticks as nat);
}

} // verus!
