//! The event-listener loop's schedule.
//!
//! Streaming gateway events means registering a server-side listener and
//! then fetching on a fixed cadence until the listener's lifetime runs out:
//! sleep one refresh interval, consult the clock, and while the deadline has
//! not passed, fetch a batch of events and sleep again. A failed fetch is
//! skipped silently — it neither ends the loop nor stretches the deadline.
//!
//! As with the execution poller, the decisions are a verified state machine;
//! a driver performs the registration, the sleeps, the clock reads and the
//! fetches, and emits each successfully fetched batch in arrival order.

use vstd::prelude::*;

use crate::poller::PollerConfig;
use crate::poller::script_ok;

verus! {

/// What the listener loop asks its driver to do next.
#[derive(Clone, Copy, Debug, PartialEq, Eq, Structural)]
pub enum ListenerAction {
    /// Sleep one refresh interval and report back.
    Sleep,
    /// Report the wall-clock time elapsed since the loop began, or that the
    /// clock could not be read.
    ReadClock,
    /// Fetch one batch of events for the registered listener, emit it if the
    /// fetch succeeded, and report whether it succeeded.
    FetchEvents,
    /// The listener's lifetime is over: stop, reporting success.
    Stop,
    /// Return a clock error to the caller.
    FailClock,
}

/// What the driver reports back after performing an action.
#[derive(Clone, Copy, Debug, PartialEq, Eq, Structural)]
pub enum ListenerEvent {
    /// The sleep finished.
    Slept,
    /// The clock was read: milliseconds elapsed since the loop began.
    ClockRead(u64),
    /// The clock could not be read.
    ClockFailed,
    /// A fetch finished; the payload says whether it succeeded.
    Fetched(bool),
}

/// Where the listener loop stands. `Done` and `Aborted` are terminal.
#[derive(Clone, Copy, Debug, PartialEq, Eq, Structural)]
pub enum ListenerState {
    /// Sleeping off one refresh interval.
    Sleeping,
    /// About to consult the clock.
    Checking,
    /// About to fetch one batch of events.
    Fetching,
    /// The lifetime expired; the loop ends without error.
    Done,
    /// The clock failed; the loop ends with a clock error.
    Aborted,
}

/// The action each state asks for.
pub open spec fn listener_action_spec(s: ListenerState) -> ListenerAction {
    match s {
        ListenerState::Sleeping => ListenerAction::Sleep,
        ListenerState::Checking => ListenerAction::ReadClock,
        ListenerState::Fetching => ListenerAction::FetchEvents,
        ListenerState::Done => ListenerAction::Stop,
        ListenerState::Aborted => ListenerAction::FailClock,
    }
}

/// Whether an event answers the action that the state asked for.
pub open spec fn listener_event_fits(s: ListenerState, ev: ListenerEvent) -> bool {
    match s {
        ListenerState::Sleeping => ev is Slept,
        ListenerState::Checking => ev is ClockRead || ev is ClockFailed,
        ListenerState::Fetching => ev is Fetched,
        ListenerState::Done => false,
        ListenerState::Aborted => false,
    }
}

/// The transition relation: sleep, check the clock, and fetch while the
/// deadline has not passed. A fetch leads back to sleeping whether or not
/// it succeeded — failures are tolerated, never fatal.
pub open spec fn listener_step_spec(cfg: PollerConfig, s: ListenerState, ev: ListenerEvent) -> ListenerState {
    match (s, ev) {
        (ListenerState::Sleeping, ListenerEvent::Slept) => ListenerState::Checking,
        (ListenerState::Checking, ListenerEvent::ClockRead(elapsed)) => if elapsed
            < cfg.max_wait_ms {
            ListenerState::Fetching
        } else {
            ListenerState::Done
        },
        (ListenerState::Checking, ListenerEvent::ClockFailed) => ListenerState::Aborted,
        (ListenerState::Fetching, ListenerEvent::Fetched(_)) => ListenerState::Sleeping,
        _ => s,
    }
}

/// The event-listener loop: its lifetime policy plus the state it has
/// reached. The driver registers the listener first, then alternates
/// `action` and `on_event` until the action is `Stop` or `FailClock`.
pub struct EventListenerLoop {
    pub config: PollerConfig,
    pub state: ListenerState,
}

impl EventListenerLoop {
    /// A fresh loop, entered right after the listener was registered: the
    /// first thing to do is one sleep.
    pub fn new(config: PollerConfig) -> (l: Self)
        ensures
            l.config == config,
            l.state == ListenerState::Sleeping,
    {
        EventListenerLoop { config, state: ListenerState::Sleeping }
    }

    /// What the driver must do next.
    pub fn action(&self) -> (a: ListenerAction)
        ensures
            a == listener_action_spec(self.state),
    {
        match self.state {
            ListenerState::Sleeping => ListenerAction::Sleep,
            ListenerState::Checking => ListenerAction::ReadClock,
            ListenerState::Fetching => ListenerAction::FetchEvents,
            ListenerState::Done => ListenerAction::Stop,
            ListenerState::Aborted => ListenerAction::FailClock,
        }
    }

    /// Advance by one reported outcome.
    pub fn on_event(&mut self, ev: ListenerEvent)
        requires
            listener_event_fits(old(self).state, ev),
        ensures
            final(self).config == old(self).config,
            final(self).state == listener_step_spec(old(self).config, old(self).state, ev),
    {
        let next = match (self.state, ev) {
            (ListenerState::Sleeping, ListenerEvent::Slept) => ListenerState::Checking,
            (ListenerState::Checking, ListenerEvent::ClockRead(elapsed)) => if elapsed
                < self.config.max_wait_ms {
                ListenerState::Fetching
            } else {
                ListenerState::Done
            },
            (ListenerState::Checking, ListenerEvent::ClockFailed) => ListenerState::Aborted,
            (ListenerState::Fetching, ListenerEvent::Fetched(_)) => ListenerState::Sleeping,
            _ => self.state,
        };
        self.state = next;
    }
}

/// The loop, seen from a clock check where `fetched` fetches have happened,
/// `batches` of them successfully, and `elapsed` milliseconds have passed on
/// a clock that advances by exactly one refresh interval per sleep. Returns
/// the fetch count, the emitted batch count, and the elapsed time when the
/// loop ends.
pub open spec fn listen_loop_spec(
    cfg: PollerConfig,
    script: Seq<bool>,
    fetched: int,
    elapsed: int,
    batches: int,
) -> (int, int, int)
    decreases cfg.max_wait_ms + cfg.refresh_interval_ms - elapsed,
        when cfg.refresh_interval_ms > 0 && elapsed <= cfg.max_wait_ms + cfg.refresh_interval_ms
{
    if elapsed < cfg.max_wait_ms {
        listen_loop_spec(
            cfg,
            script,
            fetched + 1,
            elapsed + cfg.refresh_interval_ms,
            batches + if script_ok(script, fetched) {
                1int
            } else {
                0int
            },
        )
    } else {
        (fetched, batches, elapsed)
    }
}

/// The whole listen session under a script and the ideal clock, starting
/// after the first sleep.
pub open spec fn listen_sim(cfg: PollerConfig, script: Seq<bool>) -> (int, int, int) {
    listen_loop_spec(cfg, script, 0, cfg.refresh_interval_ms as int, 0)
}

/// What a scripted listen session did: how many fetches it attempted, how
/// many event batches it emitted, and how much modeled time passed.
#[derive(Clone, Copy, Debug, PartialEq, Eq, Structural)]
pub struct ListenOutcome {
    pub fetches: u64,
    pub batches: u64,
    pub elapsed_ms: u64,
}

fn listen_script_at(script: &Vec<bool>, i: u64) -> (ok: bool)
    ensures
        ok == script_ok(script@, i as int),
{
    if i < script.len() as u64 {
        script[i as usize]
    } else {
        false
    }
}

/// Run the listener loop's state machine against a script of fetch
/// outcomes, with a clock that advances by exactly one refresh interval per
/// sleep and never fails. Tests drive it in place of a live gateway.
pub fn run_listener_with_script(config: &PollerConfig, script: &Vec<bool>) -> (o: ListenOutcome)
    requires
        config.wf(),
    ensures
        o.fetches as int == listen_sim(*config, script@).0,
        o.batches as int == listen_sim(*config, script@).1,
        o.elapsed_ms as int == listen_sim(*config, script@).2,
{
    let m = config.max_wait_ms;
    let r = config.refresh_interval_ms;
    let mut l = EventListenerLoop::new(*config);
    let mut fetched: u64 = 0;
    let mut batches: u64 = 0;
    let mut elapsed: u64 = r;
    l.on_event(ListenerEvent::Slept);
    while elapsed < m
        invariant
            config.wf(),
            m == config.max_wait_ms,
            r == config.refresh_interval_ms,
            l.config == *config,
            l.state is Checking,
            elapsed == (fetched + 1) * r,
            elapsed <= m + r,
            batches <= fetched,
            listen_loop_spec(*config, script@, fetched as int, elapsed as int, batches as int)
                == listen_sim(*config, script@),
        decreases m + r - elapsed,
    {
        l.on_event(ListenerEvent::ClockRead(elapsed));
        proof {
            assert(fetched + 1 <= (fetched + 1) * r) by (nonlinear_arith)
                requires
                    r >= 1,
                    fetched >= 0,
            ;
            assert((fetched + 2) * r == (fetched + 1) * r + r) by (nonlinear_arith);
        }
        let ok = listen_script_at(script, fetched);
        if ok {
            batches = batches + 1;
        }
        l.on_event(ListenerEvent::Fetched(ok));
        fetched = fetched + 1;
        elapsed = elapsed + r;
        l.on_event(ListenerEvent::Slept);
    }
    l.on_event(ListenerEvent::ClockRead(elapsed));
    ListenOutcome { fetches: fetched, batches, elapsed_ms: elapsed }
}

/// How many of the reads with index in `[lo, hi)` succeed under a script.
pub open spec fn count_ok_between(script: Seq<bool>, lo: int, hi: int) -> int
    decreases hi - lo,
{
    if lo >= hi {
        0
    } else {
        (if script_ok(script, lo) {
            1int
        } else {
            0int
        }) + count_ok_between(script, lo + 1, hi)
    }
}

proof fn lemma_listen_loop_batches(cfg: PollerConfig, script: Seq<bool>, fetched: int, elapsed: int, batches: int)
    requires
        cfg.refresh_interval_ms > 0,
        elapsed <= cfg.max_wait_ms + cfg.refresh_interval_ms,
    ensures
        ({
            let s = listen_loop_spec(cfg, script, fetched, elapsed, batches);
            &&& s.0 >= fetched
            &&& s.1 == batches + count_ok_between(script, fetched, s.0)
            &&& s.2 >= cfg.max_wait_ms
            &&& s.2 <= cfg.max_wait_ms + cfg.refresh_interval_ms
            &&& s.2 >= elapsed
        }),
    decreases cfg.max_wait_ms + cfg.refresh_interval_ms - elapsed,
{
    if elapsed < cfg.max_wait_ms {
        let c: int = if script_ok(script, fetched) {
            1
        } else {
            0
        };
        lemma_listen_loop_batches(
            cfg,
            script,
            fetched + 1,
            elapsed + cfg.refresh_interval_ms as int,
            batches + c,
        );
    }
}

/// The batches a listen session emits are exactly its successful fetches,
/// in arrival order: one batch per read that succeeded, none for a read
/// that failed, and the session always lasts to the deadline.
pub proof fn lemma_listen_batches_are_successes(cfg: PollerConfig, script: Seq<bool>)
    requires
        cfg.wf(),
    ensures
        ({
            let s = listen_sim(cfg, script);
            &&& s.1 == count_ok_between(script, 0, s.0)
            &&& s.2 >= cfg.max_wait_ms
            &&& s.2 <= cfg.max_wait_ms + cfg.refresh_interval_ms
        }),
{
    lemma_listen_loop_batches(cfg, script, 0, cfg.refresh_interval_ms as int, 0);
}

proof fn lemma_listen_loop_schedule(cfg: PollerConfig, s1: Seq<bool>, s2: Seq<bool>, fetched: int, elapsed: int, b1: int, b2: int)
    requires
        cfg.refresh_interval_ms > 0,
        elapsed <= cfg.max_wait_ms + cfg.refresh_interval_ms,
    ensures
        listen_loop_spec(cfg, s1, fetched, elapsed, b1).0 == listen_loop_spec(
            cfg,
            s2,
            fetched,
            elapsed,
            b2,
        ).0,
        listen_loop_spec(cfg, s1, fetched, elapsed, b1).2 == listen_loop_spec(
            cfg,
            s2,
            fetched,
            elapsed,
            b2,
        ).2,
    decreases cfg.max_wait_ms + cfg.refresh_interval_ms - elapsed,
{
    if elapsed < cfg.max_wait_ms {
        let c1: int = if script_ok(s1, fetched) {
            1
        } else {
            0
        };
        let c2: int = if script_ok(s2, fetched) {
            1
        } else {
            0
        };
        lemma_listen_loop_schedule(
            cfg,
            s1,
            s2,
            fetched + 1,
            elapsed + cfg.refresh_interval_ms as int,
            b1 + c1,
            b2 + c2,
        );
    }
}

/// Fetch failures never end the loop and never stretch it: the number of
/// fetch attempts and the session's length depend on the policy alone, not
/// on how any fetch turned out. Termination comes from the deadline, never
/// from an error.
pub proof fn lemma_listen_schedule_independent(cfg: PollerConfig, s1: Seq<bool>, s2: Seq<bool>)
    requires
        cfg.wf(),
    ensures
        listen_sim(cfg, s1).0 == listen_sim(cfg, s2).0,
        listen_sim(cfg, s1).2 == listen_sim(cfg, s2).2,
{
    lemma_listen_loop_schedule(cfg, s1, s2, 0, cfg.refresh_interval_ms as int, 0, 0);
}

} // verus!
