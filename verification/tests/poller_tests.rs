use somfy_cli::poller::{
    run_with_script, ExecutionPoller, PollerAction, PollerConfig, PollerEvent,
};

fn config(max_wait_ms: u64, refresh_interval_ms: u64) -> PollerConfig {
    PollerConfig { max_wait_ms, refresh_interval_ms }
}

#[test]
fn test_poller_config_default() {
    let c = PollerConfig::default();
    assert_eq!(c.max_wait_ms, 2000);
    assert_eq!(c.refresh_interval_ms, 500);
}

#[test]
fn test_poller_config_event_listener() {
    let c = PollerConfig::event_listener();
    assert_eq!(c.max_wait_ms, 600_000);
    assert_eq!(c.refresh_interval_ms, 1000);
}

// A fetch stub that always fails must be retried until the deadline is
// exhausted — at least max_wait / refresh_interval reads, within one — and
// the stub's failure is what comes back.
#[test]
fn test_poll_always_failing_fetch_exhausts_deadline() {
    let cfg = config(50, 10);
    let script = vec![false; 32];
    let o = run_with_script(&cfg, &script);

    assert!(!o.returned_ok);
    // initial read + retries at elapsed 10, 20, 30, 40 ms + the final read
    assert_eq!(o.fetches, 6);
    assert!(o.fetches >= 50 / 10);
    assert!(o.fetches <= 50 / 10 + 2);
    assert_eq!(o.elapsed_ms, 50);
}

// A fetch stub that fails twice then succeeds must yield the success, within
// the deadline.
#[test]
fn test_poll_fails_twice_then_succeeds() {
    let cfg = config(50, 10);
    let script = vec![false, false, true, true, true, true, true, true];
    let o = run_with_script(&cfg, &script);

    assert!(o.returned_ok);
    assert!(o.elapsed_ms <= 50 + 10);
    // reads 0, 1 fail; read 2 succeeds; one final read on top
    assert_eq!(o.fetches, 4);
}

// Two runs over the same stub with no intervening mutation yield equal
// results.
#[test]
fn test_poll_idempotent_against_stub() {
    let cfg = config(50, 10);
    let script = vec![false, true, false, true];
    let first = run_with_script(&cfg, &script);
    let second = run_with_script(&cfg, &script);
    assert_eq!(first, second);
}

// A zero deadline still performs exactly one sleep-then-fetch cycle and
// returns the final read's outcome: the poller sleeps once before it first
// checks the deadline.
#[test]
fn test_poll_zero_max_wait_single_cycle() {
    let cfg = config(0, 10);
    let script = vec![false, true];
    let o = run_with_script(&cfg, &script);

    assert_eq!(o.fetches, 2);
    assert_eq!(o.sleeps, 1);
    assert_eq!(o.elapsed_ms, 10);
    assert!(o.returned_ok); // the final read, index 1, succeeds
}

// End-to-end polling half: a backend that answers "not found" for the first
// three reads and then a completed result settles to the completed result.
#[test]
fn test_poll_settles_after_three_failures() {
    let cfg = config(5, 1);
    let script = vec![false, false, false, true, true, true, true, true];
    let o = run_with_script(&cfg, &script);

    assert!(o.returned_ok);
    assert!(o.elapsed_ms <= 5 + 1);
}

// The returned outcome is the final read's own: a failure on the final read
// is surfaced even though a retry succeeded earlier.
#[test]
fn test_poll_final_fetch_overrides_earlier_success() {
    let cfg = config(50, 10);
    // read 1 succeeds mid-retry, but the final read (index 2) fails
    let script = vec![false, true, false];
    let o = run_with_script(&cfg, &script);

    assert_eq!(o.fetches, 3);
    assert!(!o.returned_ok);
}

// The state machine's transitions, step by step, for a poll that succeeds on
// its second read.
#[test]
fn test_poller_machine_transitions() {
    let cfg = config(100, 10);
    let mut p = ExecutionPoller::new(cfg);

    assert_eq!(p.action(), PollerAction::Fetch);
    p.on_event(PollerEvent::Fetched(false));
    assert_eq!(p.action(), PollerAction::Sleep);
    p.on_event(PollerEvent::Slept);
    assert_eq!(p.action(), PollerAction::ReadClock);
    p.on_event(PollerEvent::ClockRead(10));
    assert_eq!(p.action(), PollerAction::Fetch);
    p.on_event(PollerEvent::Fetched(true));
    p.on_event(PollerEvent::Slept);
    assert_eq!(p.action(), PollerAction::FinalFetch);
}

// A clock failure aborts the poll with a clock error.
#[test]
fn test_poller_machine_clock_failure() {
    let cfg = config(100, 10);
    let mut p = ExecutionPoller::new(cfg);
    p.on_event(PollerEvent::Fetched(false));
    p.on_event(PollerEvent::Slept);
    p.on_event(PollerEvent::ClockFailed);
    assert_eq!(p.action(), PollerAction::FailClock);
}

// A deadline already passed at the first clock read leads straight to the
// final read.
#[test]
fn test_poller_machine_deadline_reached() {
    let cfg = config(100, 10);
    let mut p = ExecutionPoller::new(cfg);
    p.on_event(PollerEvent::Fetched(false));
    p.on_event(PollerEvent::Slept);
    p.on_event(PollerEvent::ClockRead(100));
    assert_eq!(p.action(), PollerAction::FinalFetch);
}
