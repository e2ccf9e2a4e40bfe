use vstd::prelude::*;

use crate::time::{Duration, Timestamp, MAX_TIMESTAMP_MILLIS};

verus! {

/// What the loop around a walker should do next.
pub enum WalkerAction {
    /// The cursor has reached the present: wait for the idle poll interval
    /// and ask again.
    Idle,
    /// A window is due: evaluate the monitor at this cursor.
    Evaluate { point: Timestamp },
}

/// The cursor a walker reaches after a run of evaluation outcomes (`true`
/// for a success), starting from `start`: each success advances it by
/// `step`, a failure leaves it where it was.
pub open spec fn spec_cursor_after(start: int, step: int, outcomes: Seq<bool>) -> int
    decreases outcomes.len(),
{
    if outcomes.len() == 0 {
        start
    } else if outcomes.last() {
        spec_cursor_after(start, step, outcomes.drop_last()) + step
    } else {
        spec_cursor_after(start, step, outcomes.drop_last())
    }
}

/// A failed evaluation never moves the cursor: after any run of outcomes,
/// one more failure leaves the cursor exactly where the run left it, so no
/// due window is ever skipped.
pub proof fn lemma_failure_keeps_cursor(start: int, step: int, outcomes: Seq<bool>)
    ensures
        spec_cursor_after(start, step, outcomes.push(false)) == spec_cursor_after(
            start,
            step,
            outcomes,
        ),
{
    assert(outcomes.push(false).drop_last() =~= outcomes);
}

/// A successful evaluation advances the cursor by exactly one step: after
/// any run of outcomes, one more success moves it from where the run left it
/// to one step further.
pub proof fn lemma_success_advances_cursor(start: int, step: int, outcomes: Seq<bool>)
    ensures
        spec_cursor_after(start, step, outcomes.push(true)) == spec_cursor_after(
            start,
            step,
            outcomes,
        ) + step,
{
    assert(outcomes.push(true).drop_last() =~= outcomes);
}

/// Drives one monitor through time: keeps the evaluation cursor, hands out
/// the next due window, and advances only on success. The loop around it
/// performs the evaluations and the pacing sleeps, and should check its
/// cancellation signal at every suspension point.
pub struct Walker {
    /// The instant the next evaluation will cover.
    pub cursor: Timestamp,
    /// How far a successful evaluation advances the cursor; independent of
    /// the monitor's interval, so consecutive windows may overlap or leave
    /// gaps by design.
    pub step: Duration,
}

impl Walker {
    pub open spec fn wf(self) -> bool {
        self.cursor.wf() && self.step.wf()
    }

    /// Starts a walker `catch_up` behind the present, so that it replays the
    /// recent backlog before watching the present.
    pub fn new(now: Timestamp, catch_up: Duration, step: Duration) -> (w: Walker)
        requires
            now.wf(),
            catch_up.wf(),
            step.wf(),
            catch_up.millis <= now.millis,
        ensures
            w.cursor.millis == now.millis - catch_up.millis,
            w.step == step,
            w.wf(),
    {
        Walker { cursor: Timestamp { millis: now.millis - catch_up.millis }, step }
    }

    /// Evaluate the cursor's window once it lies in the past; idle while it
    /// does not.
    pub fn next_action(&self, now: Timestamp) -> (a: WalkerAction)
        ensures
            self.cursor.millis < now.millis ==> a == (WalkerAction::Evaluate {
                point: self.cursor,
            }),
            self.cursor.millis >= now.millis ==> a == WalkerAction::Idle,
    {
        if self.cursor.millis < now.millis {
            WalkerAction::Evaluate { point: self.cursor }
        } else {
            WalkerAction::Idle
        }
    }

    /// After a successful evaluation the cursor moves one step forward; the
    /// next window begins where this one ended.
    pub fn on_success(&mut self)
        requires
            old(self).wf(),
            old(self).cursor.millis + old(self).step.millis <= MAX_TIMESTAMP_MILLIS,
        ensures
            final(self).cursor.millis == old(self).cursor.millis + old(self).step.millis,
            final(self).step == old(self).step,
            final(self).wf(),
    {
        self.cursor = Timestamp { millis: self.cursor.millis + self.step.millis };
    }

    /// After a failed evaluation the walker is unchanged: the same cursor is
    /// retried after the backoff pause, so the failed window is evaluated
    /// again rather than skipped.
    pub fn on_failure(&mut self)
        ensures
            *final(self) == *old(self),
    {
    }
}

} // verus!
