//! The idle window of a UDP flow.
//!
//! A flow that has neither sent nor received for thirty seconds counts as
//! closed. Time is a count of milliseconds from an origin that the caller
//! picks and keeps.

use vstd::prelude::*;

verus! {

/// How long a flow may stay silent, in milliseconds.
pub const IDLE_WINDOW_MS: u64 = 30_000;

/// Whether the window that was opened at `since` has run out at `now`.
pub open spec fn spec_window_over(since: u64, now: u64) -> bool {
    now - since >= IDLE_WINDOW_MS
}

/// Whether the window that was opened at `since` has run out at `now`.
#[verifier::when_used_as_spec(spec_window_over)]
pub fn window_over(since: u64, now: u64) -> (over: bool)
    ensures
        over == spec_window_over(since, now),
{
    now >= since && now - since >= IDLE_WINDOW_MS
}

/// What the stream side of a flow does when it is polled for an item.
#[derive(Debug, Clone, Copy, PartialEq, Eq, Structural)]
pub enum NextStep {
    /// The window has run out: the stream has ended.
    End,
    /// The window was opened anew: ask the stream behind for an item.
    PollInner,
}

/// What the sink side of a flow does when it is asked whether it can take
/// an item.
#[derive(Debug, Clone, Copy, PartialEq, Eq, Structural)]
pub enum ReadyStep {
    /// The window has run out: the sink fails as timed out.
    TimedOut,
    /// Ask the sink behind.
    PollInner,
}

/// The timer that guards one flow.
#[derive(Debug, Clone, Copy)]
pub struct IdleTimer {
    armed_at: u64,
}

impl View for IdleTimer {
    type V = u64;

    /// The time at which the window was last opened.
    closed spec fn view(&self) -> u64 {
        self.armed_at
    }
}

impl IdleTimer {
    /// Whether the timer has fired at `now`.
    pub open spec fn spec_fired(&self, now: u64) -> bool {
        spec_window_over(self@, now)
    }

    /// A timer whose window opens at `now`.
    pub fn new(now: u64) -> (timer: Self)
        ensures
            timer@ == now,
    {
        Self { armed_at: now }
    }

    /// Whether the timer has fired at `now`.
    #[verifier::when_used_as_spec(spec_fired)]
    pub fn fired(&self, now: u64) -> (fired: bool)
        ensures
            fired == self.spec_fired(now),
    {
        window_over(self.armed_at, now)
    }

    /// The stream is polled at `now`. A timer that has fired ends the
    /// stream and stays as it is; otherwise the window opens anew.
    pub fn poll_next(&mut self, now: u64) -> (step: NextStep)
        ensures
            old(self).spec_fired(now) ==> step == NextStep::End && final(self)@ == old(self)@,
            !old(self).spec_fired(now) ==> step == NextStep::PollInner && final(self)@ == now,
    {
        if self.fired(now) {
            NextStep::End
        } else {
            self.armed_at = now;
            NextStep::PollInner
        }
    }

    /// The sink is asked at `now` whether it can take an item. A timer that
    /// has fired fails it; the window is left alone either way.
    pub fn poll_ready(&self, now: u64) -> (step: ReadyStep)
        ensures
            step == if self.spec_fired(now) {
                ReadyStep::TimedOut
            } else {
                ReadyStep::PollInner
            },
    {
        if self.fired(now) {
            ReadyStep::TimedOut
        } else {
            ReadyStep::PollInner
        }
    }

    /// An item is handed to the sink at `now`: the window opens anew.
    pub fn start_send(&mut self, now: u64)
        ensures
            final(self)@ == now,
    {
        self.armed_at = now;
    }
}

/// A timer fires once thirty seconds have passed since the last item went
/// through, and not before; once fired it stays fired while nothing is sent.
pub proof fn lemma_timer_fires_after_window(timer: IdleTimer, now: u64, later: u64)
    ensures
        timer.spec_fired(now) <==> now >= timer@ + 30_000,
        timer.spec_fired(now) && later >= now ==> timer.spec_fired(later),
{
}

} // verus!
