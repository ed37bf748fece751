use nanoterm::sched::{SchedAction, SchedEvent, SchedState, Scheduler};

#[test]
fn quit_key_is_observed_within_one_tick() {
    // tick 5s, fetch latency 2s, quit pressed 1s after a draw
    let tick_ms: u64 = 5000;
    let fetch_latency_ms: u64 = 2000;
    let mut sched = Scheduler::new(tick_ms, 0, 'q');
    let mut fetches_after_first_draw = 0u32;

    // the draw happens at t = 0; the loop then waits
    let mut now: u64 = 0;
    let wait = sched.remaining_wait(now);
    assert_eq!(wait, 5000);

    // the quit key arrives 1s later, well inside the bounded wait
    now += 1000;
    let action = sched.on_event(SchedEvent::Key('q'), now);
    match action {
        SchedAction::Fetch => {
            fetches_after_first_draw += 1;
            now += fetch_latency_ms;
        }
        SchedAction::Quit => {}
        SchedAction::Ignore => {}
    }

    assert_eq!(action, SchedAction::Quit);
    assert_eq!(sched.state, SchedState::Stopped);
    assert!(fetches_after_first_draw <= 1);
    assert!(now <= 5000, "quit observed within one tick of the draw");
}

#[test]
fn other_keys_are_discarded_without_resetting_the_timer() {
    let mut sched = Scheduler::new(5000, 0, 'q');
    let before = sched.remaining_wait(3000);
    let action = sched.on_event(SchedEvent::Key('x'), 3000);
    assert_eq!(action, SchedAction::Ignore);
    assert_eq!(sched.state, SchedState::Running);
    assert_eq!(sched.remaining_wait(3000), before);
}

#[test]
fn an_elapsed_wait_resets_the_timer_and_fetches() {
    let mut sched = Scheduler::new(5000, 0, 'q');
    let action = sched.on_event(SchedEvent::TimedOut, 5000);
    assert_eq!(action, SchedAction::Fetch);
    assert_eq!(sched.state, SchedState::Running);
    assert_eq!(sched.last_tick_ms, 5000);
    assert_eq!(sched.remaining_wait(5000), 5000);
}

#[test]
fn one_fetch_per_elapsed_tick_before_the_quit_key() {
    // a discarded keystroke, one elapsed tick, then the quit key:
    // exactly one fetch is commanded before the scheduler stops
    let mut sched = Scheduler::new(5000, 0, 'q');
    let mut fetches = 0u32;
    let events = [
        (SchedEvent::Key('x'), 1000u64),
        (SchedEvent::TimedOut, 5000),
        (SchedEvent::Key('q'), 7000),
    ];
    for (event, now) in events {
        match sched.on_event(event, now) {
            SchedAction::Fetch => fetches += 1,
            SchedAction::Quit => break,
            SchedAction::Ignore => {}
        }
    }
    assert_eq!(fetches, 1);
    assert_eq!(sched.state, SchedState::Stopped);
}

#[test]
fn remaining_wait_counts_down_and_saturates() {
    let sched = Scheduler::new(5000, 0, 'q');
    assert_eq!(sched.remaining_wait(0), 5000);
    assert_eq!(sched.remaining_wait(1000), 4000);
    assert_eq!(sched.remaining_wait(4999), 1);
    assert_eq!(sched.remaining_wait(5000), 0);
    assert_eq!(sched.remaining_wait(99999), 0);
    for now in [0u64, 1, 2500, 5000, 10000] {
        assert!(sched.remaining_wait(now) <= 5000);
    }
}
