//! Debouncing of resize notifications.
//!
//! Resize events can arrive many times a second while a window edge is
//! dragged; resampling on every one would stall interaction. The debouncer
//! coalesces a burst into a single redraw: every notification restarts a
//! quiescence timer, and a cooperative poll fires once the timer has run
//! out. Times are plain milliseconds handed in by the caller.

use vstd::prelude::*;

verus! {

/// The two-state machine: idle (`pending` false) or waiting for the
/// quiescence window to pass (`pending` true, `deadline_ms` set).
pub struct Debouncer {
    pub quiescence_ms: u64,
    pub pending: bool,
    pub deadline_ms: u64,
}

/// A resize notification at `now_ms` makes the machine pending with a
/// fresh deadline one quiescence window away, whatever it was doing.
pub open spec fn spec_on_resize(d: Debouncer, now_ms: u64) -> Debouncer {
    Debouncer {
        quiescence_ms: d.quiescence_ms,
        pending: true,
        deadline_ms: (now_ms + d.quiescence_ms) as u64,
    }
}

/// A poll at `now_ms` fires exactly when the machine is pending and the
/// deadline has passed.
pub open spec fn spec_poll_fires(d: Debouncer, now_ms: u64) -> bool {
    d.pending && now_ms >= d.deadline_ms
}

/// After a poll the machine is idle if it fired, untouched otherwise.
pub open spec fn spec_after_poll(d: Debouncer, now_ms: u64) -> Debouncer {
    if spec_poll_fires(d, now_ms) {
        Debouncer { quiescence_ms: d.quiescence_ms, pending: false, deadline_ms: d.deadline_ms }
    } else {
        d
    }
}

impl Debouncer {
    /// A fresh, idle debouncer with the given quiescence window.
    pub fn new(quiescence_ms: u64) -> (r: Debouncer)
        ensures
            r.quiescence_ms == quiescence_ms,
            !r.pending,
    {
        Debouncer { quiescence_ms, pending: false, deadline_ms: 0 }
    }

    /// Record a resize notification: restart the quiescence timer.
    pub fn on_resize(&mut self, now_ms: u64)
        requires
            now_ms + old(self).quiescence_ms <= u64::MAX,
        ensures
            *final(self) == spec_on_resize(*old(self), now_ms),
    {
        self.pending = true;
        self.deadline_ms = now_ms + self.quiescence_ms;
    }

    /// Check the timer: report (and consume) a settled burst. Fires
    /// exactly when pending and the deadline has passed; a fire leaves the
    /// machine idle, anything else leaves it untouched.
    pub fn poll(&mut self, now_ms: u64) -> (fired: bool)
        ensures
            fired == spec_poll_fires(*old(self), now_ms),
            *final(self) == spec_after_poll(*old(self), now_ms),
    {
        if self.pending && now_ms >= self.deadline_ms {
            self.pending = false;
            true
        } else {
            false
        }
    }
}

/// How many of a run of polls at the given times fire, starting from `d`.
pub open spec fn count_fires(d: Debouncer, polls: Seq<u64>) -> nat
    decreases polls.len(),
{
    if polls.len() == 0 {
        0
    } else {
        (if spec_poll_fires(d, polls[0]) { 1nat } else { 0nat })
            + count_fires(spec_after_poll(d, polls[0]), polls.drop_first())
    }
}

/// An idle debouncer never fires, however often it is polled.
pub proof fn lemma_idle_never_fires(d: Debouncer, polls: Seq<u64>)
    requires
        !d.pending,
    ensures
        count_fires(d, polls) == 0,
    decreases polls.len(),
{
    if polls.len() > 0 {
        lemma_idle_never_fires(spec_after_poll(d, polls[0]), polls.drop_first());
    }
}

/// At most one redraw per burst: from any state, a run of polls with no
/// intervening resize fires at most once.
pub proof fn lemma_at_most_one_fire(d: Debouncer, polls: Seq<u64>)
    ensures
        count_fires(d, polls) <= 1,
    decreases polls.len(),
{
    if polls.len() > 0 {
        if spec_poll_fires(d, polls[0]) {
            lemma_idle_never_fires(spec_after_poll(d, polls[0]), polls.drop_first());
        } else {
            lemma_at_most_one_fire(spec_after_poll(d, polls[0]), polls.drop_first());
        }
    }
}

/// Exactly one redraw per settled burst: a pending debouncer that is
/// polled at least once at or after its deadline fires exactly once.
pub proof fn lemma_settled_burst_fires_once(d: Debouncer, polls: Seq<u64>)
    requires
        d.pending,
        exists|i: int| 0 <= i < polls.len() && polls[i] >= d.deadline_ms,
    ensures
        count_fires(d, polls) == 1,
    decreases polls.len(),
{
    let i = choose|i: int| 0 <= i < polls.len() && polls[i] >= d.deadline_ms;
    if spec_poll_fires(d, polls[0]) {
        lemma_idle_never_fires(spec_after_poll(d, polls[0]), polls.drop_first());
    } else {
        assert(i >= 1);
        assert(polls.drop_first()[i - 1] == polls[i]);
        lemma_settled_burst_fires_once(spec_after_poll(d, polls[0]), polls.drop_first());
    }
}

} // verus!
