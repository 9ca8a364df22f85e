//! Lifecycle monitor: a bounded polling state machine.
//!
//! A wait is a loop of exactly `timeout_ms / poll_interval_ms` status
//! queries; the loop ends early when the target state is observed, and
//! otherwise exhausts its budget and reports a timeout — a normal
//! negative result, not an error.  The queries themselves are external
//! work, so the caller runs the loop: it asks the machine whether to
//! query again, performs one query, and hands the observation back to
//! [`Monitor::observe`].

use vstd::prelude::*;

verus! {

/// What the driving loop must do after one observation.
#[derive(Clone, Copy, Debug, PartialEq, Eq, Structural)]
pub enum PollStep {
    /// The unit was seen in the target state: stop with success.
    Reached,
    /// Not there yet and budget remains: sleep one interval, query again.
    Wait,
    /// Not there yet and the budget is exhausted: stop with failure.
    TimedOut,
}

/// Outcome of running a whole poll loop against a fixed trace of
/// observations: how many queries were made, and whether the target
/// state was reached.
pub open spec fn poll_run(budget: nat, obs: Seq<bool>) -> (nat, bool)
    decreases budget,
{
    if budget == 0 || obs.len() == 0 {
        (0, false)
    } else if obs[0] {
        (1, true)
    } else {
        let (checks, reached) = poll_run((budget - 1) as nat, obs.skip(1));
        ((checks + 1) as nat, reached)
    }
}

/// A poll loop that never observes the target state performs exactly
/// `budget` queries and reports failure.
pub proof fn lemma_poll_exhaustion(budget: nat, obs: Seq<bool>)
    requires
        obs.len() >= budget,
        forall|i: int| 0 <= i < budget ==> !obs[i],
    ensures
        poll_run(budget, obs) == ((budget, false)),
    decreases budget,
{
    if budget > 0 {
        assert(!obs[0]);
        lemma_poll_exhaustion((budget - 1) as nat, obs.skip(1));
    }
}

/// A poll loop stops at the first observation of the target state: if
/// entry `k < budget` is the first positive one, exactly `k + 1` queries
/// are made and the wait succeeds.
pub proof fn lemma_poll_first_hit(budget: nat, obs: Seq<bool>, k: int)
    requires
        0 <= k < budget,
        k < obs.len(),
        obs[k],
        forall|i: int| 0 <= i < k ==> !obs[i],
    ensures
        poll_run(budget, obs) == (((k + 1) as nat, true)),
    decreases k,
{
    if k > 0 {
        lemma_poll_first_hit((budget - 1) as nat, obs.skip(1), k - 1);
    }
}

/// The bounded polling machine for one monitored unit.
pub struct Monitor {
    /// Queries still allowed before the wait times out.
    pub remaining: u64,
}

impl Monitor {
    /// A machine with the iteration budget `floor(timeout_ms / poll_interval_ms)`.
    pub fn new(timeout_ms: u64, poll_interval_ms: u64) -> (m: Monitor)
        requires
            poll_interval_ms > 0,
        ensures
            m.remaining == timeout_ms / poll_interval_ms,
    {
        Monitor { remaining: timeout_ms / poll_interval_ms }
    }

    /// Does the budget still allow a query?
    pub fn should_query(&self) -> (r: bool)
        ensures
            r == (self.remaining > 0),
    {
        self.remaining > 0
    }

    /// Record one status query.  `in_target_state` is what the query
    /// reported (a failed query counts as "not in the target state").
    pub fn observe(&mut self, in_target_state: bool) -> (step: PollStep)
        requires
            old(self).remaining > 0,
        ensures
            in_target_state ==> step is Reached && final(self).remaining == old(self).remaining,
            !in_target_state ==> final(self).remaining == old(self).remaining - 1,
            !in_target_state && old(self).remaining > 1 ==> step is Wait,
            !in_target_state && old(self).remaining == 1 ==> step is TimedOut,
    {
        if in_target_state {
            PollStep::Reached
        } else {
            self.remaining = self.remaining - 1;
            if self.remaining == 0 {
                PollStep::TimedOut
            } else {
                PollStep::Wait
            }
        }
    }
}

} // verus!
