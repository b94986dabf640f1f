//! The countdown loop's decisions, as a state machine driven by ticks.
//!
//! Each tick the driver renders, asks `check_completion` with the monotonic
//! time elapsed since the start, polls for a key, hands it to `handle_key`,
//! and sleeps. Once the loop stops, `take_completion` says what to do.
use vstd::prelude::*;
use crate::breakdown::{decimal_text, decompose, decompose_spec, label_spec, TimeRemaining};
use crate::progress::{percent_spec, percentage};

verus! {

/// The key that cancels the countdown.
pub const QUIT_KEY: char = 'q';

/// Length of one tick, in milliseconds.
pub const TICK_MILLIS: u64 = 333;

/// Longest wait for a key within one tick, in milliseconds.
pub const POLL_MILLIS: u64 = 200;

pub const MILLIS_PER_SECOND: u64 = 1000;

/// Where the loop stands. `Cancelled` and `Completed` are final.
#[derive(Debug, Clone, Copy, PartialEq, Eq, Structural)]
pub enum Phase {
    Running,
    Cancelled,
    Completed,
}

/// What to do once the loop has stopped.
#[derive(Debug, PartialEq, Eq)]
pub enum Completion {
    /// Nothing: the countdown was cancelled, or its end was already handled.
    Skip,
    /// Report that the deadline was reached.
    Announce,
    /// Report that the deadline was reached and run this command line.
    Execute(String),
}

/// Abstract state of a countdown.
pub struct CountdownView {
    pub total_ms: nat,
    pub phase: Phase,
    pub command: Option<Seq<char>>,
    pub handled: bool,
}

/// A countdown of a fixed length, measured against a monotonic clock.
pub struct Countdown {
    total_ms: u64,
    command: Option<String>,
    phase: Phase,
    handled: bool,
}

pub open spec fn optional_string(s: Option<String>) -> Option<Seq<char>> {
    match s {
        Some(t) => Some(t@),
        None => None,
    }
}

impl View for Countdown {
    type V = CountdownView;

    closed spec fn view(&self) -> CountdownView {
        CountdownView {
            total_ms: self.total_ms as nat,
            phase: self.phase,
            command: optional_string(self.command),
            handled: self.handled,
        }
    }
}

/// The completion check of a tick: a running countdown whose elapsed time has
/// reached its total completes.
pub open spec fn check_step(v: CountdownView, elapsed_ms: nat) -> CountdownView {
    if v.phase == Phase::Running && elapsed_ms >= v.total_ms {
        CountdownView { phase: Phase::Completed, ..v }
    } else {
        v
    }
}

/// The input step of a tick: the quit key cancels a running countdown.
pub open spec fn key_step(v: CountdownView, key: Option<char>) -> CountdownView {
    if v.phase == Phase::Running && key == Some(QUIT_KEY) {
        CountdownView { phase: Phase::Cancelled, ..v }
    } else {
        v
    }
}

/// Whether the end of the countdown is still to be handled.
pub open spec fn completion_due(v: CountdownView) -> bool {
    v.phase == Phase::Completed && !v.handled
}

/// The state after the loop's end has been taken.
pub open spec fn take_step(v: CountdownView) -> CountdownView {
    if completion_due(v) {
        CountdownView { handled: true, ..v }
    } else {
        v
    }
}

/// Whole seconds left: the total less the whole seconds elapsed, never
/// below zero.
pub open spec fn remaining_spec(v: CountdownView, elapsed_ms: nat) -> nat {
    let total = v.total_ms / (MILLIS_PER_SECOND as nat);
    let done = elapsed_ms / (MILLIS_PER_SECOND as nat);
    if done >= total {
        0
    } else {
        (total - done) as nat
    }
}

impl Countdown {
    /// A running countdown of `total_seconds`, which runs `command` when it
    /// completes.
    pub fn new(total_seconds: u64, command: Option<String>) -> (c: Countdown)
        requires
            total_seconds <= u64::MAX / 1000,
        ensures
            c@ == (CountdownView {
                total_ms: (total_seconds * 1000) as nat,
                phase: Phase::Running,
                command: optional_string(command),
                handled: false,
            }),
    {
        Countdown {
            total_ms: total_seconds * MILLIS_PER_SECOND,
            command,
            phase: Phase::Running,
            handled: false,
        }
    }

    pub fn phase(&self) -> (p: Phase)
        ensures
            p == self@.phase,
    {
        self.phase
    }

    /// Whether `elapsed_ms` has reached the total.
    pub fn is_finished(&self, elapsed_ms: u64) -> (r: bool)
        ensures
            r == (elapsed_ms >= self@.total_ms),
    {
        elapsed_ms >= self.total_ms
    }

    /// Progress after `elapsed_ms`, as a whole percentage.
    pub fn progress_percentage(&self, elapsed_ms: u64) -> (r: u64)
        ensures
            r == percent_spec(elapsed_ms as nat, self@.total_ms),
            r <= 100,
    {
        percentage(elapsed_ms, self.total_ms)
    }

    /// Whole seconds left after `elapsed_ms`.
    pub fn remaining_seconds(&self, elapsed_ms: u64) -> (r: u64)
        ensures
            r == remaining_spec(self@, elapsed_ms as nat),
    {
        let total = self.total_ms / MILLIS_PER_SECOND;
        let done = elapsed_ms / MILLIS_PER_SECOND;
        total.saturating_sub(done)
    }

    /// The time left after `elapsed_ms`, split into units.
    pub fn remaining_time(&self, elapsed_ms: u64) -> (t: TimeRemaining)
        ensures
            t == decompose_spec(remaining_spec(self@, elapsed_ms as nat)),
    {
        decompose(self.remaining_seconds(elapsed_ms))
    }

    /// The label shown beside the progress: the time left, such as `1d 0h 5m 3s`.
    pub fn label(&self, elapsed_ms: u64) -> (r: String)
        ensures
            r@ == label_spec(decompose_spec(remaining_spec(self@, elapsed_ms as nat))),
    {
        self.remaining_time(elapsed_ms).format()
    }

    /// The completion check of a tick. Returns whether the loop stops.
    pub fn check_completion(&mut self, elapsed_ms: u64) -> (stop: bool)
        ensures
            final(self)@ == check_step(old(self)@, elapsed_ms as nat),
            stop == (final(self)@.phase != Phase::Running),
    {
        if self.phase == Phase::Running && elapsed_ms >= self.total_ms {
            self.phase = Phase::Completed;
        }
        self.phase != Phase::Running
    }

    /// The input step of a tick, with the key read during the poll, if any.
    /// Returns whether the loop stops.
    pub fn handle_key(&mut self, key: Option<char>) -> (stop: bool)
        ensures
            final(self)@ == key_step(old(self)@, key),
            stop == (final(self)@.phase != Phase::Running),
    {
        if self.phase == Phase::Running {
            match key {
                Some(k) => {
                    if k == QUIT_KEY {
                        self.phase = Phase::Cancelled;
                    }
                },
                None => {},
            }
        }
        self.phase != Phase::Running
    }

    /// What to do now that the loop has stopped. Only a completed countdown
    /// asks for anything, and only the first time.
    pub fn take_completion(&mut self) -> (r: Completion)
        ensures
            final(self)@ == take_step(old(self)@),
            !completion_due(old(self)@) ==> r == Completion::Skip,
            completion_due(old(self)@) && old(self)@.command is None ==> r == Completion::Announce,
            completion_due(old(self)@) && old(self)@.command is Some ==> (match r {
                Completion::Execute(c) => c@ == old(self)@.command->Some_0,
                _ => false,
            }),
    {
        if self.phase == Phase::Completed && !self.handled {
            self.handled = true;
            match &self.command {
                Some(c) => Completion::Execute(c.clone()),
                None => Completion::Announce,
            }
        } else {
            Completion::Skip
        }
    }
}

/// What one tick observes: the elapsed time at its completion check and the
/// key read during its poll.
pub struct Tick {
    pub elapsed_ms: nat,
    pub key: Option<char>,
}

/// One tick: the completion check, then the input step.
pub open spec fn tick_step(v: CountdownView, t: Tick) -> CountdownView {
    key_step(check_step(v, t.elapsed_ms), t.key)
}

/// The state after a sequence of ticks.
pub open spec fn run(v: CountdownView, ticks: Seq<Tick>) -> CountdownView
    decreases ticks.len(),
{
    if ticks.len() == 0 {
        v
    } else {
        run(tick_step(v, ticks[0]), ticks.drop_first())
    }
}

/// A cancelled or completed countdown stays as it is, whatever ticks follow.
pub proof fn lemma_final_phase_stays(v: CountdownView, ticks: Seq<Tick>)
    requires
        v.phase != Phase::Running,
    ensures
        run(v, ticks) == v,
    decreases ticks.len(),
{
    if ticks.len() > 0 {
        lemma_final_phase_stays(tick_step(v, ticks[0]), ticks.drop_first());
    }
}

/// The quit key, read in a tick before the total has elapsed, cancels a
/// running countdown, and the completion is then never due.
pub proof fn lemma_quit_cancels(v: CountdownView, ticks: Seq<Tick>, i: int)
    requires
        v.phase == Phase::Running,
        0 <= i < ticks.len(),
        ticks[i].key == Some(QUIT_KEY),
        forall|j: int| 0 <= j <= i ==> #[trigger] ticks[j].elapsed_ms < v.total_ms,
    ensures
        run(v, ticks).phase == Phase::Cancelled,
        !completion_due(run(v, ticks)),
        take_step(run(v, ticks)) == run(v, ticks),
    decreases ticks.len(),
{
    let next = tick_step(v, ticks[0]);
    assert(ticks[0].elapsed_ms < v.total_ms);
    if next.phase == Phase::Running {
        assert(i > 0);
        assert forall|j: int| 0 <= j <= i - 1 implies #[trigger] ticks.drop_first()[j].elapsed_ms
            < next.total_ms by {
            assert(ticks.drop_first()[j] == ticks[j + 1]);
        }
        lemma_quit_cancels(next, ticks.drop_first(), i - 1);
    } else {
        lemma_final_phase_stays(next, ticks.drop_first());
    }
}

/// A running countdown whose total has elapsed by tick `i`, with no quit key
/// read before that tick, completes; its completion is due once, and taking
/// it leaves nothing due.
pub proof fn lemma_completion_once(v: CountdownView, ticks: Seq<Tick>, i: int)
    requires
        v.phase == Phase::Running,
        !v.handled,
        0 <= i < ticks.len(),
        ticks[i].elapsed_ms >= v.total_ms,
        forall|j: int| 0 <= j < i ==> #[trigger] ticks[j].key != Some(QUIT_KEY),
    ensures
        run(v, ticks).phase == Phase::Completed,
        completion_due(run(v, ticks)),
        !completion_due(take_step(run(v, ticks))),
        take_step(take_step(run(v, ticks))) == take_step(run(v, ticks)),
    decreases ticks.len(),
{
    let next = tick_step(v, ticks[0]);
    if next.phase == Phase::Running {
        assert(i > 0);
        assert(ticks.drop_first()[i - 1] == ticks[i]);
        assert forall|j: int| 0 <= j < i - 1 implies #[trigger] ticks.drop_first()[j].key != Some(
            QUIT_KEY,
        ) by {
            assert(ticks.drop_first()[j] == ticks[j + 1]);
        }
        lemma_completion_once(next, ticks.drop_first(), i - 1);
    } else {
        if i == 0 {
            assert(next.phase == Phase::Completed);
        } else {
            assert(ticks[0].key != Some(QUIT_KEY));
        }
        lemma_final_phase_stays(next, ticks.drop_first());
    }
}

/// Once the whole total has elapsed, the display shows 100 percent and a
/// label of `0s`.
pub proof fn lemma_display_at_end(v: CountdownView, elapsed_ms: nat)
    requires
        elapsed_ms >= v.total_ms,
    ensures
        percent_spec(elapsed_ms, v.total_ms) == 100,
        remaining_spec(v, elapsed_ms) == 0,
        label_spec(decompose_spec(remaining_spec(v, elapsed_ms))) == "0s"@,
{
    assert(elapsed_ms / 1000 >= v.total_ms / 1000) by (nonlinear_arith)
        requires elapsed_ms >= v.total_ms;
    reveal_strlit("0s");
    assert(decimal_text(0) == seq!['0']);
    assert(label_spec(decompose_spec(0)) =~= "0s"@);
}

} // verus!
