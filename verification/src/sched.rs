//! The tick scheduler's decisions, as a pure state machine.
//!
//! One cooperative loop alternates a draw, a bounded wait for a
//! cancellation keystroke, and a blocking fetch. The waiting, reading
//! and fetching are the caller's work; this module owns the decisions:
//! how long to wait, what a keystroke means, and when the tick timer
//! resets. Times are milliseconds on a monotonic clock.

use vstd::prelude::*;

verus! {

/// The scheduler's state: `Stopped` is terminal.
#[derive(Clone, Copy, PartialEq, Eq, Structural, Debug)]
pub enum SchedState {
    Running,
    Stopped,
}

/// What the bounded wait observed: a keystroke, or the wait elapsing.
#[derive(Clone, Copy, PartialEq, Eq, Structural, Debug)]
pub enum SchedEvent {
    Key(char),
    TimedOut,
}

/// What the caller must do next: leave the loop, keep waiting out the
/// current tick, or fetch a fresh quote and redraw.
#[derive(Clone, Copy, PartialEq, Eq, Structural, Debug)]
pub enum SchedAction {
    Quit,
    Ignore,
    Fetch,
}

/// The scheduler: tick bookkeeping and the quit key it watches for.
#[derive(Clone, Copy, PartialEq, Eq, Structural, Debug)]
pub struct Scheduler {
    pub state: SchedState,
    pub tick_interval_ms: u64,
    pub last_tick_ms: u64,
    pub quit_key: char,
}

/// Time left of the current tick: the full interval minus what has
/// elapsed since the last tick, never below zero.
pub open spec fn spec_remaining(interval: int, last_tick: int, now: int) -> int {
    if now >= last_tick + interval {
        0
    } else if now >= last_tick {
        last_tick + interval - now
    } else {
        interval
    }
}

/// One decision step: what the scheduler becomes and what it commands
/// on consuming one observation at one instant. The quit key stops it;
/// any other keystroke is discarded without touching the tick timer;
/// an elapsed wait resets the timer and commands a fetch.
pub open spec fn sched_step(s: Scheduler, event: SchedEvent, now: u64) -> (Scheduler, SchedAction) {
    match event {
        SchedEvent::Key(k) => if k == s.quit_key {
            (Scheduler { state: SchedState::Stopped, ..s }, SchedAction::Quit)
        } else {
            (s, SchedAction::Ignore)
        },
        SchedEvent::TimedOut => (Scheduler { last_tick_ms: now, ..s }, SchedAction::Fetch),
    }
}

impl Scheduler {
    /// Starts the scheduler: running, with the tick timer set to now.
    pub fn new(tick_interval_ms: u64, now_ms: u64, quit_key: char) -> (s: Self)
        ensures
            s.state is Running,
            s.tick_interval_ms == tick_interval_ms,
            s.last_tick_ms == now_ms,
            s.quit_key == quit_key,
    {
        Scheduler { state: SchedState::Running, tick_interval_ms, last_tick_ms: now_ms, quit_key }
    }

    /// How long the caller may wait for input before the tick is due.
    /// The wait is bounded by one tick interval, so a quit keystroke is
    /// honoured within at most that long once the loop is waiting.
    pub fn remaining_wait(&self, now_ms: u64) -> (r: u64)
        ensures
            r == spec_remaining(
                self.tick_interval_ms as int,
                self.last_tick_ms as int,
                now_ms as int,
            ),
            r <= self.tick_interval_ms,
    {
        if now_ms >= self.last_tick_ms {
            let elapsed = now_ms - self.last_tick_ms;
            if elapsed >= self.tick_interval_ms {
                0
            } else {
                self.tick_interval_ms - elapsed
            }
        } else {
            self.tick_interval_ms
        }
    }

    /// Consumes what the bounded wait observed. The quit key stops the
    /// scheduler; any other keystroke is discarded without resetting
    /// the tick timer; an elapsed wait resets the timer to now and
    /// calls for a fetch.
    pub fn on_event(&mut self, event: SchedEvent, now_ms: u64) -> (a: SchedAction)
        requires
            old(self).state is Running,
        ensures
            *final(self) == sched_step(*old(self), event, now_ms).0,
            a == sched_step(*old(self), event, now_ms).1,
    {
        match event {
            SchedEvent::Key(k) => {
                if k == self.quit_key {
                    self.state = SchedState::Stopped;
                    SchedAction::Quit
                } else {
                    SchedAction::Ignore
                }
            },
            SchedEvent::TimedOut => {
                self.last_tick_ms = now_ms;
                SchedAction::Fetch
            },
        }
    }
}

/// Cancellation latency is bounded: whatever the clock reads, the wait
/// the scheduler asks for never exceeds one tick interval, so a quit
/// keystroke pressed while the loop waits is observed within one tick.
pub proof fn lemma_bounded_cancellation(interval: u64, last_tick: u64, now: u64)
    ensures
        0 <= spec_remaining(interval as int, last_tick as int, now as int) <= interval,
{
}

/// The scheduler after consuming the events at the given instants, one
/// decision per event, ending at the first quit command.
pub open spec fn run_state(s: Scheduler, events: Seq<SchedEvent>, nows: Seq<u64>) -> Scheduler
    decreases events.len(),
{
    if events.len() == 0 || nows.len() == 0 {
        s
    } else {
        let step = sched_step(s, events[0], nows[0]);
        if step.1 is Quit {
            step.0
        } else {
            run_state(step.0, events.skip(1), nows.skip(1))
        }
    }
}

/// How many fetches the scheduler commands over the events, counted up
/// to the first quit command.
pub open spec fn run_fetch_count(s: Scheduler, events: Seq<SchedEvent>, nows: Seq<u64>) -> nat
    decreases events.len(),
{
    if events.len() == 0 || nows.len() == 0 {
        0
    } else {
        let step = sched_step(s, events[0], nows[0]);
        if step.1 is Quit {
            0
        } else {
            (if step.1 is Fetch {
                1nat
            } else {
                0nat
            }) + run_fetch_count(step.0, events.skip(1), nows.skip(1))
        }
    }
}

/// The elapsed ticks among a sequence of observations.
pub open spec fn timeout_count(events: Seq<SchedEvent>) -> nat
    decreases events.len(),
{
    if events.len() == 0 {
        0
    } else {
        (if events[0] is TimedOut {
            1nat
        } else {
            0nat
        }) + timeout_count(events.skip(1))
    }
}

/// The quit key is honoured the moment it is consumed: driven by any
/// event sequence whose first quit keystroke stands at position i, the
/// scheduler ends Stopped right there, and the fetches it commanded
/// before that are exactly the elapsed ticks among the earlier events
/// -- discarded keystrokes cost none. So a quit key read within the
/// first bounded wait after a draw costs no fetch at all, and one that
/// lands while a fetch is under way is honoured at the next read, that
/// one fetch in all.
pub proof fn lemma_quit_stops_with_one_fetch_per_tick(
    s: Scheduler,
    events: Seq<SchedEvent>,
    nows: Seq<u64>,
    i: int,
)
    requires
        s.state is Running,
        events.len() == nows.len(),
        0 <= i < events.len(),
        events[i] == SchedEvent::Key(s.quit_key),
        forall|j: int| 0 <= j < i ==> events[j] != SchedEvent::Key(s.quit_key),
    ensures
        run_state(s, events, nows).state is Stopped,
        run_fetch_count(s, events, nows) == timeout_count(events.take(i)),
    decreases i,
{
    let step = sched_step(s, events[0], nows[0]);
    if i == 0 {
        assert(events.take(0) =~= Seq::<SchedEvent>::empty());
    } else {
        assert(!(step.1 is Quit));
        assert(step.0.quit_key == s.quit_key);
        assert(step.0.state is Running);
        let etail = events.skip(1);
        let ntail = nows.skip(1);
        assert(etail[i - 1] == events[i]);
        assert forall|j: int| 0 <= j < i - 1 implies etail[j] != SchedEvent::Key(
            step.0.quit_key,
        ) by {
            assert(etail[j] == events[j + 1]);
        }
        lemma_quit_stops_with_one_fetch_per_tick(step.0, etail, ntail, i - 1);
        assert(events.take(i).skip(1) =~= etail.take(i - 1));
        assert(timeout_count(events.take(i)) == (if events[0] is TimedOut {
            1nat
        } else {
            0nat
        }) + timeout_count(etail.take(i - 1)));
    }
}

} // verus!
