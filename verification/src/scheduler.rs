//! The refresh scheduler: a coalescing dirty bit between the periodic
//! timer interrupt and the polling main loop.
//!
//! The timer interrupt handler calls `fire`, the main loop calls `poll`.
//! Any number of firings between two polls collapse into a single pending
//! indication; a poll observes the flag, clears it, and reports whether a
//! refresh is due. The caller is responsible for making both calls inside
//! a critical section, so that a firing cannot slip between a poll's read
//! and its clear.

use vstd::prelude::*;

verus! {

/// The shared refresh flag: `Idle` (false) until the timer fires,
/// `Pending` (true) until the main loop polls it.
pub struct UpdateScheduler {
    pending: bool,
}

/// The flag after a firing: pending, whatever it was before.
pub open spec fn fired(pending: bool) -> bool {
    true
}

/// What a poll reports: exactly the flag it found.
pub open spec fn poll_report(pending: bool) -> bool {
    pending
}

/// The flag after a poll: idle, whatever it was before.
pub open spec fn polled(pending: bool) -> bool {
    false
}

/// The flag after a run of `n` firings with no poll in between.
pub open spec fn fired_n(pending: bool, n: nat) -> bool
    decreases n,
{
    if n == 0 {
        pending
    } else {
        fired(fired_n(pending, (n - 1) as nat))
    }
}

impl UpdateScheduler {
    /// Whether a refresh is pending.
    pub closed spec fn is_pending(&self) -> bool {
        self.pending
    }

    /// A scheduler with nothing pending; the state at startup.
    pub fn new() -> (r: Self)
        ensures
            !r.is_pending(),
    {
        UpdateScheduler { pending: false }
    }

    /// The timer interrupt's transition: mark a refresh pending. A firing
    /// on an already pending flag leaves it pending; edges coalesce
    /// rather than count.
    pub fn fire(&mut self)
        ensures
            final(self).is_pending() == fired(old(self).is_pending()),
    {
        self.pending = true;
    }

    /// The main loop's transition: report whether a refresh is due and
    /// clear the flag, so that an immediate re-poll with no intervening
    /// firing reports false.
    pub fn poll(&mut self) -> (due: bool)
        ensures
            due == poll_report(old(self).is_pending()),
            final(self).is_pending() == polled(old(self).is_pending()),
    {
        let due = self.pending;
        if due {
            self.pending = false;
        }
        due
    }
}

/// Coalescing law: any run of one or more firings with no intervening
/// poll leaves the flag pending exactly once — the first poll afterwards
/// reports true, and an immediate re-poll with no firing reports false.
pub proof fn lemma_firings_coalesce(pending: bool, n: nat)
    requires
        n >= 1,
    ensures
        fired_n(pending, n),
        poll_report(fired_n(pending, n)),
        !poll_report(polled(fired_n(pending, n))),
    decreases n,
{
    if n > 1 {
        lemma_firings_coalesce(pending, (n - 1) as nat);
    }
}

} // verus!
