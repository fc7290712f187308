//! The bounded retry policy of the execution poller.
//!
//! Submitting an action group to the gateway returns an execution identifier
//! immediately; the actual outcome only becomes readable moments later. The
//! poller reconciles that with a synchronous command line: it re-reads the
//! execution while the last read failed and the deadline has not passed, then
//! performs one unconditional final read whose outcome is what the caller
//! receives — a best-available read at the deadline, not the first success.
//!
//! The decision logic is an explicit state machine. A driver performs the
//! actions the machine asks for (fetch, sleep, read the clock, the final
//! fetch) and reports each outcome back as an event; the machine itself never
//! touches the network or the clock, so every transition is verified here.

use vstd::prelude::*;

verus! {

/// A bounded retry policy: how often to re-read, and for how long at most.
/// Durations are in milliseconds.
#[derive(Clone, Copy, Debug, PartialEq, Eq, Structural)]
pub struct PollerConfig {
    pub max_wait_ms: u64,
    pub refresh_interval_ms: u64,
}

impl PollerConfig {
    /// A usable policy: the interval is positive (a zero interval degrades
    /// to busy-polling) and the deadline leaves room for one more interval
    /// without overflowing the clock arithmetic.
    pub open spec fn wf(self) -> bool {
        &&& self.refresh_interval_ms > 0
        &&& self.max_wait_ms <= u64::MAX - self.refresh_interval_ms
    }

    /// The policy for event listeners: polled once a second, for the
    /// listener's server-side lifetime of ten minutes.
    pub fn event_listener() -> (c: PollerConfig)
        ensures
            c.max_wait_ms == 600000,
            c.refresh_interval_ms == 1000,
            c.wf(),
    {
        PollerConfig { max_wait_ms: 600000, refresh_interval_ms: 1000 }
    }
}

impl Default for PollerConfig {
    /// The short policy used when settling a freshly submitted execution.
    fn default() -> (c: Self)
        ensures
            c.max_wait_ms == 2000,
            c.refresh_interval_ms == 500,
            c.wf(),
    {
        PollerConfig { max_wait_ms: 2000, refresh_interval_ms: 500 }
    }
}

/// What the poller asks its driver to do next.
#[derive(Clone, Copy, Debug, PartialEq, Eq, Structural)]
pub enum PollerAction {
    /// Read the execution once and report whether the read succeeded.
    Fetch,
    /// Sleep one refresh interval and report back.
    Sleep,
    /// Report the wall-clock time elapsed since the poll began, or that the
    /// clock could not be read.
    ReadClock,
    /// Perform the one final, authoritative read and return its outcome to
    /// the caller as the poll's result.
    FinalFetch,
    /// Return a clock error to the caller.
    FailClock,
}

/// What the driver reports back after performing an action.
#[derive(Clone, Copy, Debug, PartialEq, Eq, Structural)]
pub enum PollerEvent {
    /// A fetch finished; the payload says whether it succeeded.
    Fetched(bool),
    /// The sleep finished.
    Slept,
    /// The clock was read: milliseconds elapsed since the poll began.
    ClockRead(u64),
    /// The clock could not be read.
    ClockFailed,
}

/// Where the poller stands. `Settling` and `Aborted` are terminal: their
/// actions tell the driver how to leave the loop.
#[derive(Clone, Copy, Debug, PartialEq, Eq, Structural)]
pub enum PollerState {
    /// About to read the execution (the initial read or a retry).
    Fetching,
    /// Sleeping off one refresh interval after a read.
    Sleeping { last_ok: bool },
    /// About to consult the clock, the last read having failed.
    Checking,
    /// The retry phase is over: one final read decides the result.
    Settling,
    /// The clock failed; the poll ends with a clock error.
    Aborted,
}

/// The action each state asks for.
pub open spec fn poller_action_spec(s: PollerState) -> PollerAction {
    match s {
        PollerState::Fetching => PollerAction::Fetch,
        PollerState::Sleeping { .. } => PollerAction::Sleep,
        PollerState::Checking => PollerAction::ReadClock,
        PollerState::Settling => PollerAction::FinalFetch,
        PollerState::Aborted => PollerAction::FailClock,
    }
}

/// Whether an event answers the action that the state asked for.
pub open spec fn poller_event_fits(s: PollerState, ev: PollerEvent) -> bool {
    match s {
        PollerState::Fetching => ev is Fetched,
        PollerState::Sleeping { .. } => ev is Slept,
        PollerState::Checking => ev is ClockRead || ev is ClockFailed,
        PollerState::Settling => false,
        PollerState::Aborted => false,
    }
}

/// The transition relation, mirroring the loop `while the last read failed
/// and the elapsed time is under the deadline, read again and sleep`. Every
/// read is followed by one sleep; a successful read is noticed only after
/// that sleep, and leads to the final read rather than being returned
/// itself.
pub open spec fn poller_step_spec(cfg: PollerConfig, s: PollerState, ev: PollerEvent) -> PollerState {
    match (s, ev) {
        (PollerState::Fetching, PollerEvent::Fetched(ok)) => PollerState::Sleeping { last_ok: ok },
        (PollerState::Sleeping { last_ok }, PollerEvent::Slept) => if last_ok {
            PollerState::Settling
        } else {
            PollerState::Checking
        },
        (PollerState::Checking, PollerEvent::ClockRead(elapsed)) => if elapsed < cfg.max_wait_ms {
            PollerState::Fetching
        } else {
            PollerState::Settling
        },
        (PollerState::Checking, PollerEvent::ClockFailed) => PollerState::Aborted,
        _ => s,
    }
}

/// The execution poller: a bounded retry policy plus the state it has
/// reached. The driver alternates `action` and `on_event` until the action
/// is `FinalFetch` or `FailClock`.
pub struct ExecutionPoller {
    pub config: PollerConfig,
    pub state: PollerState,
}

impl ExecutionPoller {
    /// A fresh poll: the first thing to do is the initial read.
    pub fn new(config: PollerConfig) -> (p: Self)
        ensures
            p.config == config,
            p.state == PollerState::Fetching,
    {
        ExecutionPoller { config, state: PollerState::Fetching }
    }

    /// What the driver must do next.
    pub fn action(&self) -> (a: PollerAction)
        ensures
            a == poller_action_spec(self.state),
    {
        match self.state {
            PollerState::Fetching => PollerAction::Fetch,
            PollerState::Sleeping { .. } => PollerAction::Sleep,
            PollerState::Checking => PollerAction::ReadClock,
            PollerState::Settling => PollerAction::FinalFetch,
            PollerState::Aborted => PollerAction::FailClock,
        }
    }

    /// Advance by one reported outcome.
    pub fn on_event(&mut self, ev: PollerEvent)
        requires
            poller_event_fits(old(self).state, ev),
        ensures
            final(self).config == old(self).config,
            final(self).state == poller_step_spec(old(self).config, old(self).state, ev),
    {
        let next = match (self.state, ev) {
            (PollerState::Fetching, PollerEvent::Fetched(ok)) => PollerState::Sleeping {
                last_ok: ok,
            },
            (PollerState::Sleeping { last_ok }, PollerEvent::Slept) => if last_ok {
                PollerState::Settling
            } else {
                PollerState::Checking
            },
            (PollerState::Checking, PollerEvent::ClockRead(elapsed)) => if elapsed
                < self.config.max_wait_ms {
                PollerState::Fetching
            } else {
                PollerState::Settling
            },
            (PollerState::Checking, PollerEvent::ClockFailed) => PollerState::Aborted,
            _ => self.state,
        };
        self.state = next;
    }
}

/// Whether the read with index `i` (zero-based) succeeds under a script of
/// read outcomes. Reads past the script's end fail.
pub open spec fn script_ok(script: Seq<bool>, i: int) -> bool {
    0 <= i < script.len() && script[i]
}

/// The retry phase, seen from a loop head where `fetches` reads have
/// happened (the last one with index `fetches - 1`), each followed by one
/// sleep, so that `elapsed` milliseconds have passed on a clock that
/// advances by exactly one refresh interval per sleep. Returns the read
/// count and elapsed time when the phase ends.
pub open spec fn poll_loop_spec(cfg: PollerConfig, script: Seq<bool>, fetches: int, elapsed: int) -> (
    int,
    int,
)
    decreases cfg.max_wait_ms + cfg.refresh_interval_ms - elapsed,
        when cfg.refresh_interval_ms > 0 && elapsed <= cfg.max_wait_ms + cfg.refresh_interval_ms
{
    if !script_ok(script, fetches - 1) && elapsed < cfg.max_wait_ms {
        poll_loop_spec(cfg, script, fetches + 1, elapsed + cfg.refresh_interval_ms)
    } else {
        (fetches, elapsed)
    }
}

/// The whole poll under a script and the ideal clock: the pair of the retry
/// phase's read count and its elapsed time, starting after the initial read
/// and the first sleep. The final, authoritative read is the one with index
/// `poll_sim(cfg, script).0`.
pub open spec fn poll_sim(cfg: PollerConfig, script: Seq<bool>) -> (int, int) {
    poll_loop_spec(cfg, script, 1, cfg.refresh_interval_ms as int)
}

/// What a scripted poll did: how many reads and sleeps it performed, how
/// much modeled time passed, and the outcome of the final read, which is
/// what the poller hands its caller.
#[derive(Clone, Copy, Debug, PartialEq, Eq, Structural)]
pub struct PollOutcome {
    pub fetches: u64,
    pub sleeps: u64,
    pub elapsed_ms: u64,
    pub returned_ok: bool,
}

fn script_at(script: &Vec<bool>, i: u64) -> (ok: bool)
    ensures
        ok == script_ok(script@, i as int),
{
    if i < script.len() as u64 {
        script[i as usize]
    } else {
        false
    }
}

/// Run the poller's state machine against a script of read outcomes, with a
/// clock that advances by exactly one refresh interval per sleep and never
/// fails. This is the poller's behaviour with timing jitter abstracted
/// away; tests drive it in place of a live gateway.
pub fn run_with_script(config: &PollerConfig, script: &Vec<bool>) -> (o: PollOutcome)
    requires
        config.wf(),
    ensures
        o.fetches as int == poll_sim(*config, script@).0 + 1,
        o.sleeps as int == poll_sim(*config, script@).0,
        o.elapsed_ms as int == poll_sim(*config, script@).1,
        o.returned_ok == script_ok(script@, poll_sim(*config, script@).0),
{
    let m = config.max_wait_ms;
    let r = config.refresh_interval_ms;
    let mut p = ExecutionPoller::new(*config);
    let ok0 = script_at(script, 0);
    p.on_event(PollerEvent::Fetched(ok0));
    let mut fetches: u64 = 1;
    let mut elapsed: u64 = r;
    p.on_event(PollerEvent::Slept);
    while matches!(p.state, PollerState::Checking) && elapsed < m
        invariant
            config.wf(),
            m == config.max_wait_ms,
            r == config.refresh_interval_ms,
            p.config == *config,
            1 <= fetches,
            elapsed == fetches * r,
            elapsed <= m + r,
            elapsed < m + r || fetches == 1,
            p.state is Checking || p.state is Settling,
            p.state is Checking ==> !script_ok(script@, fetches as int - 1),
            p.state is Settling ==> (script_ok(script@, fetches as int - 1) || elapsed >= m),
            poll_loop_spec(*config, script@, fetches as int, elapsed as int) == poll_sim(
                *config,
                script@,
            ),
        decreases m + r - elapsed,
    {
        p.on_event(PollerEvent::ClockRead(elapsed));
        proof {
            assert(fetches <= fetches * r) by (nonlinear_arith)
                requires
                    r >= 1,
                    fetches >= 0,
            ;
            assert((fetches + 1) * r == fetches * r + r) by (nonlinear_arith);
        }
        let ok = script_at(script, fetches);
        p.on_event(PollerEvent::Fetched(ok));
        fetches = fetches + 1;
        elapsed = elapsed + r;
        p.on_event(PollerEvent::Slept);
    }
    if matches!(p.state, PollerState::Checking) {
        p.on_event(PollerEvent::ClockRead(elapsed));
    }
    proof {
        assert(fetches <= fetches * r) by (nonlinear_arith)
            requires
                r >= 1,
                fetches >= 0,
        ;
    }
    let returned_ok = script_at(script, fetches);
    let sleeps = fetches;
    fetches = fetches + 1;
    PollOutcome { fetches, sleeps, elapsed_ms: elapsed, returned_ok }
}

proof fn lemma_poll_loop_bounds(cfg: PollerConfig, script: Seq<bool>, fetches: int, elapsed: int)
    requires
        cfg.refresh_interval_ms > 0,
        elapsed <= cfg.max_wait_ms + cfg.refresh_interval_ms,
    ensures
        ({
            let fe = poll_loop_spec(cfg, script, fetches, elapsed);
            &&& fe.0 >= fetches
            &&& fe.1 >= elapsed
            &&& fe.1 <= cfg.max_wait_ms + cfg.refresh_interval_ms
            &&& fe.1 - elapsed == (fe.0 - fetches) * cfg.refresh_interval_ms
            &&& (script_ok(script, fe.0 - 1) || fe.1 >= cfg.max_wait_ms)
        }),
    decreases cfg.max_wait_ms + cfg.refresh_interval_ms - elapsed,
{
    let r = cfg.refresh_interval_ms as int;
    if !script_ok(script, fetches - 1) && elapsed < cfg.max_wait_ms {
        lemma_poll_loop_bounds(cfg, script, fetches + 1, elapsed + r);
        let fe = poll_loop_spec(cfg, script, fetches, elapsed);
        assert((fe.0 - fetches - 1) * r + r == (fe.0 - fetches) * r) by (nonlinear_arith);
    }
}

/// Bounded-time guarantee: however the reads turn out, the poll's modeled
/// time never runs past the deadline by more than one refresh interval.
pub proof fn lemma_poll_bounded_time(cfg: PollerConfig, script: Seq<bool>)
    requires
        cfg.wf(),
    ensures
        poll_sim(cfg, script).1 <= cfg.max_wait_ms + cfg.refresh_interval_ms,
{
    lemma_poll_loop_bounds(cfg, script, 1, cfg.refresh_interval_ms as int);
}

/// When every read fails, the poll retries until the deadline is exhausted,
/// and the final read — the result handed to the caller — fails as well.
/// The elapsed time equals the retry-phase read count times the refresh
/// interval and brackets the deadline, so the number of reads is within one
/// of `max_wait / refresh_interval`.
pub proof fn lemma_poll_failure_exhausts_deadline(cfg: PollerConfig, script: Seq<bool>)
    requires
        cfg.wf(),
        forall|j: int| !script_ok(script, j),
    ensures
        ({
            let s = poll_sim(cfg, script);
            &&& !script_ok(script, s.0)
            &&& s.1 >= cfg.max_wait_ms
            &&& s.1 <= cfg.max_wait_ms + cfg.refresh_interval_ms
            &&& s.1 == s.0 * cfg.refresh_interval_ms
        }),
{
    let r = cfg.refresh_interval_ms as int;
    lemma_poll_loop_bounds(cfg, script, 1, r);
    let s = poll_sim(cfg, script);
    assert((s.0 - 1) * r + r == s.0 * r) by (nonlinear_arith);
}

proof fn lemma_poll_loop_stops(cfg: PollerConfig, script: Seq<bool>, i: int, fetches: int, elapsed: int)
    requires
        cfg.refresh_interval_ms > 0,
        elapsed <= cfg.max_wait_ms + cfg.refresh_interval_ms,
        script_ok(script, i),
        forall|j: int| 0 <= j < i ==> !script_ok(script, j),
        1 <= fetches <= i + 1,
    ensures
        poll_loop_spec(cfg, script, fetches, elapsed).0 <= i + 1,
    decreases cfg.max_wait_ms + cfg.refresh_interval_ms - elapsed,
{
    if !script_ok(script, fetches - 1) && elapsed < cfg.max_wait_ms {
        lemma_poll_loop_stops(cfg, script, i, fetches + 1, elapsed + cfg.refresh_interval_ms as int);
    }
}

/// A success during the retry phase stops further retries: if the first
/// scripted success is the read with index `i`, the retry phase performs at
/// most `i + 1` reads; only the final authoritative read comes on top.
pub proof fn lemma_poll_stops_at_success(cfg: PollerConfig, script: Seq<bool>, i: int)
    requires
        cfg.wf(),
        script_ok(script, i),
        forall|j: int| 0 <= j < i ==> !script_ok(script, j),
    ensures
        poll_sim(cfg, script).0 <= i + 1,
{
    lemma_poll_loop_stops(cfg, script, i, 1, cfg.refresh_interval_ms as int);
}

/// A zero deadline still performs the initial read, exactly one sleep, and
/// the final read: the poller sleeps once before it first consults the
/// clock.
pub proof fn lemma_poll_zero_deadline(cfg: PollerConfig, script: Seq<bool>)
    requires
        cfg.wf(),
        cfg.max_wait_ms == 0,
    ensures
        poll_sim(cfg, script).0 == 1,
        poll_sim(cfg, script).1 == cfg.refresh_interval_ms,
{
}

} // verus!
