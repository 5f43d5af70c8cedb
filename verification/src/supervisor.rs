//! The bootstrap supervisor: a sequential state machine from host events
//! (probe results, spawn results) to host actions (probe, spawn, wait,
//! redirect). The host shell performs each action and feeds the outcome
//! back; every decision lives here.

use vstd::prelude::*;
use crate::launch::LaunchAttempt;
use crate::process::ProcessHandle;
use crate::process::ProcessStatus;
use crate::process::spec_terminate;
use crate::readiness::ReadinessTracker;
use crate::MAX_POLL_ATTEMPTS;

verus! {

/// Where the bootstrap sequence stands.
#[derive(Debug, PartialEq, Eq, Clone, Copy)]
pub enum SupervisorState {
    /// Nothing has happened yet.
    Idle,
    /// Waiting for the probe that detects an already-running server.
    ProbingExisting,
    /// A launch attempt is in flight.
    Launching,
    /// A process was spawned; waiting for it to accept connections.
    Polling,
    /// The server answered; the UI was signalled. Terminal.
    Ready,
    /// Every strategy failed, or the polling budget ran out. Terminal.
    Failed,
}

/// What the host reports back to the supervisor.
#[derive(Debug, PartialEq, Eq, Clone, Copy)]
pub enum Event {
    /// The host finished its setup and starts the bootstrap sequence.
    HostSetup,
    /// A health probe finished; true when the port accepted a connection.
    ProbeCompleted(bool),
    /// A spawn finished; true when the attempt yielded a live process.
    SpawnCompleted(bool),
}

/// What the supervisor asks the host to do next.
#[derive(Debug, PartialEq, Eq, Clone, Copy)]
pub enum Action {
    /// Probe the fixed local port now.
    Probe,
    /// Spawn the launch attempt at this index of the plan.
    Spawn(usize),
    /// Wait one polling interval, then probe.
    WaitThenProbe,
    /// Navigate the host UI to the server address.
    Redirect,
    /// Nothing further: the bootstrap sequence is over.
    Halt,
}

/// The supervisor's whole state: the bootstrap position, the launch plan
/// with the next step to try, the polling budget used so far, the readiness
/// flag and the process handle.
pub struct Supervisor {
    pub state: SupervisorState,
    pub plan: Vec<LaunchAttempt>,
    pub next_step: usize,
    pub attempts_made: u32,
    pub tracker: ReadinessTracker,
    pub handle: ProcessHandle,
}

/// A freshly created supervisor: idle, nothing spawned, not ready.
pub open spec fn spec_init(plan: Vec<LaunchAttempt>) -> Supervisor {
    Supervisor {
        state: SupervisorState::Idle,
        plan,
        next_step: 0,
        attempts_made: 0,
        tracker: ReadinessTracker { ready: false },
        handle: ProcessHandle { status: ProcessStatus::NotSpawned },
    }
}

/// The transition table. One host event moves the machine one step and
/// names the next action:
/// setup starts the probe for an already-running server; a successful probe
/// from there short-circuits straight to `Ready`; a failed one starts the
/// launch chain, which walks the plan until a spawn succeeds or the plan is
/// exhausted; a successful spawn starts polling, which waits and probes
/// until the server answers or the attempt budget is spent. `Ready` and
/// `Failed` absorb every further event. Events that do not fit the current
/// state change nothing.
pub open spec fn spec_step(s: Supervisor, e: Event) -> (Supervisor, Action) {
    match (s.state, e) {
        (SupervisorState::Idle, Event::HostSetup) => (
            Supervisor { state: SupervisorState::ProbingExisting, ..s },
            Action::Probe,
        ),
        (SupervisorState::ProbingExisting, Event::ProbeCompleted(true)) => (
            Supervisor {
                state: SupervisorState::Ready,
                tracker: ReadinessTracker { ready: true },
                ..s
            },
            Action::Redirect,
        ),
        (SupervisorState::ProbingExisting, Event::ProbeCompleted(false)) => if s.plan@.len() > 0 {
            (Supervisor { state: SupervisorState::Launching, next_step: 0, ..s }, Action::Spawn(0))
        } else {
            (Supervisor { state: SupervisorState::Failed, ..s }, Action::Halt)
        },
        (SupervisorState::Launching, Event::SpawnCompleted(true)) => (
            Supervisor {
                state: SupervisorState::Polling,
                attempts_made: 0,
                handle: ProcessHandle { status: ProcessStatus::Running },
                ..s
            },
            Action::WaitThenProbe,
        ),
        (SupervisorState::Launching, Event::SpawnCompleted(false)) => if s.next_step + 1
            < s.plan@.len() {
            (
                Supervisor { next_step: (s.next_step + 1) as usize, ..s },
                Action::Spawn((s.next_step + 1) as usize),
            )
        } else {
            (Supervisor { state: SupervisorState::Failed, ..s }, Action::Halt)
        },
        (SupervisorState::Polling, Event::ProbeCompleted(true)) => (
            Supervisor {
                state: SupervisorState::Ready,
                tracker: ReadinessTracker { ready: true },
                ..s
            },
            Action::Redirect,
        ),
        (SupervisorState::Polling, Event::ProbeCompleted(false)) => if s.attempts_made + 1
            < MAX_POLL_ATTEMPTS {
            (
                Supervisor { attempts_made: (s.attempts_made + 1) as u32, ..s },
                Action::WaitThenProbe,
            )
        } else {
            (Supervisor { state: SupervisorState::Failed, ..s }, Action::Halt)
        },
        _ => (s, Action::Halt),
    }
}

/// The supervisor's validity: the next launch step stays inside the plan
/// while launching, the polling budget is never overdrawn, and the
/// readiness flag is set exactly in the `Ready` state.
pub open spec fn inv(s: Supervisor) -> bool {
    &&& s.plan@.len() <= usize::MAX
    &&& s.state is Launching ==> s.next_step < s.plan@.len()
    &&& s.state is Polling ==> s.attempts_made < MAX_POLL_ATTEMPTS
    &&& s.tracker.ready <==> s.state is Ready
}

/// The state after feeding a whole sequence of events, first one first.
pub open spec fn run_steps(s: Supervisor, es: Seq<Event>) -> Supervisor
    decreases es.len(),
{
    if es.len() == 0 {
        s
    } else {
        run_steps(spec_step(s, es[0]).0, es.drop_first())
    }
}

/// How many of the actions taken over a sequence of events satisfy `which`.
pub open spec fn count_actions(s: Supervisor, es: Seq<Event>, which: spec_fn(Action) -> bool) -> nat
    decreases es.len(),
{
    if es.len() == 0 {
        0
    } else {
        (if which(spec_step(s, es[0]).1) {
            1nat
        } else {
            0nat
        }) + count_actions(spec_step(s, es[0]).0, es.drop_first(), which)
    }
}

/// The predicate picking out UI redirects.
pub open spec fn is_redirect() -> spec_fn(Action) -> bool {
    |a: Action| a is Redirect
}

/// The predicate picking out spawn requests.
pub open spec fn is_spawn() -> spec_fn(Action) -> bool {
    |a: Action| a is Spawn
}

/// The predicate picking out timed waits.
pub open spec fn is_wait() -> spec_fn(Action) -> bool {
    |a: Action| a is WaitThenProbe
}

/// A fresh supervisor is valid. The length bound is a machine limit: a
/// real vector never holds more entries than a `usize` counts.
pub proof fn lemma_init_inv(plan: Vec<LaunchAttempt>)
    requires
        plan@.len() <= usize::MAX,
    ensures
        inv(spec_init(plan)),
{
}

/// Every step keeps the supervisor valid.
pub proof fn lemma_step_preserves_inv(s: Supervisor, e: Event)
    requires
        inv(s),
    ensures
        inv(spec_step(s, e).0),
{
}

/// A spawn is only ever requested at an index inside the plan.
pub proof fn lemma_spawn_index_in_plan(s: Supervisor, e: Event)
    requires
        inv(s),
    ensures
        spec_step(s, e).1 matches Action::Spawn(i) ==> i < s.plan@.len()
            && spec_step(s, e).0.plan == s.plan,
{
}

/// Readiness never reverts: once the flag is set, every later step keeps it.
pub proof fn lemma_ready_monotone(s: Supervisor, e: Event)
    ensures
        s.tracker.ready ==> spec_step(s, e).0.tracker.ready,
{
}

/// Readiness never reverts over a whole run of events.
pub proof fn lemma_ready_monotone_run(s: Supervisor, es: Seq<Event>)
    ensures
        s.tracker.ready ==> run_steps(s, es).tracker.ready,
    decreases es.len(),
{
    if es.len() > 0 {
        lemma_ready_monotone(s, es[0]);
        lemma_ready_monotone_run(spec_step(s, es[0]).0, es.drop_first());
    }
}

/// `Ready` and `Failed` are terminal: every further event changes nothing,
/// asks for nothing, and in particular spawns nothing and redirects nothing.
pub proof fn lemma_terminal_absorbs(s: Supervisor, es: Seq<Event>)
    requires
        s.state is Ready || s.state is Failed,
    ensures
        run_steps(s, es) == s,
        forall|which: spec_fn(Action) -> bool|
            !which(Action::Halt) ==> #[trigger] count_actions(s, es, which) == 0,
    decreases es.len(),
{
    if es.len() > 0 {
        assert(spec_step(s, es[0]).0 == s);
        assert(spec_step(s, es[0]).1 == Action::Halt);
        lemma_terminal_absorbs(s, es.drop_first());
        assert forall|which: spec_fn(Action) -> bool| !which(Action::Halt) implies #[trigger] count_actions(
            s,
            es,
            which,
        ) == 0 by {
            assert(count_actions(s, es.drop_first(), which) == 0);
        }
    }
}

/// A redirect is issued only on the step that enters `Ready`.
pub proof fn lemma_redirect_enters_ready(s: Supervisor, e: Event)
    ensures
        spec_step(s, e).1 is Redirect ==> !(s.state is Ready) && spec_step(s, e).0.state is Ready,
{
}

/// The UI is redirected at most once over any run of events, from any
/// starting point: entering `Ready` issues the only redirect, and `Ready`
/// absorbs everything after it.
pub proof fn lemma_redirect_at_most_once(s: Supervisor, es: Seq<Event>)
    ensures
        count_actions(s, es, is_redirect()) <= 1,
    decreases es.len(),
{
    if es.len() > 0 {
        let (s1, a1) = spec_step(s, es[0]);
        let p = is_redirect();
        if p(a1) {
            lemma_redirect_enters_ready(s, es[0]);
            lemma_terminal_absorbs(s1, es.drop_first());
            assert(!p(Action::Halt));
            assert(count_actions(s1, es.drop_first(), p) == 0);
        } else {
            lemma_redirect_at_most_once(s1, es.drop_first());
        }
    }
}

/// How many more timed waits the machine can still ask for.
pub open spec fn wait_budget(s: Supervisor) -> int {
    match s.state {
        SupervisorState::Polling => MAX_POLL_ATTEMPTS - 1 - s.attempts_made,
        SupervisorState::Ready => 0,
        SupervisorState::Failed => 0,
        _ => MAX_POLL_ATTEMPTS as int,
    }
}

/// Polling is self-bounding: over any run of events, a valid supervisor
/// asks for at most its wait budget of timed waits, and so never more than
/// the attempt ceiling.
pub proof fn lemma_waits_bounded(s: Supervisor, es: Seq<Event>)
    requires
        inv(s),
    ensures
        count_actions(s, es, is_wait()) <= wait_budget(s) <= MAX_POLL_ATTEMPTS,
    decreases es.len(),
{
    if es.len() > 0 {
        let (s1, a1) = spec_step(s, es[0]);
        lemma_step_preserves_inv(s, es[0]);
        lemma_waits_bounded(s1, es.drop_first());
    }
}

/// The total time spent in timed waits over any run is bounded by the
/// attempt ceiling times the polling interval.
pub proof fn lemma_total_wait_bounded(s: Supervisor, es: Seq<Event>)
    requires
        inv(s),
    ensures
        count_actions(s, es, is_wait()) * crate::POLL_INTERVAL_MS <= MAX_POLL_ATTEMPTS
            * crate::POLL_INTERVAL_MS,
{
    lemma_waits_bounded(s, es);
    let c = count_actions(s, es, is_wait()) as int;
    let m = MAX_POLL_ATTEMPTS as int;
    let w = crate::POLL_INTERVAL_MS as int;
    assert(c <= m && w >= 0 ==> c * w <= m * w) by (nonlinear_arith);
}

/// Once the attempt ceiling's worth of probes all fail, polling ends in
/// `Failed`: the loop cannot run forever.
pub proof fn lemma_polling_exhausts(s: Supervisor, es: Seq<Event>)
    requires
        inv(s),
        s.state is Polling,
        forall|i: int| 0 <= i < es.len() ==> es[i] == Event::ProbeCompleted(false),
        es.len() + s.attempts_made >= MAX_POLL_ATTEMPTS,
    ensures
        run_steps(s, es).state is Failed,
    decreases es.len(),
{
    assert(es[0] == Event::ProbeCompleted(false));
    let (s1, a1) = spec_step(s, es[0]);
    if s1.state is Failed {
        lemma_terminal_absorbs(s1, es.drop_first());
    } else {
        assert forall|i: int| 0 <= i < es.drop_first().len() implies es.drop_first()[i]
            == Event::ProbeCompleted(false) by {
            assert(es[i + 1] == Event::ProbeCompleted(false));
        }
        lemma_step_preserves_inv(s, es[0]);
        lemma_polling_exhausts(s1, es.drop_first());
    }
}

/// Once every remaining launch step fails to spawn, the chain ends in
/// `Failed`: no strategy is retried.
pub proof fn lemma_launching_exhausts(s: Supervisor, es: Seq<Event>)
    requires
        inv(s),
        s.state is Launching,
        forall|i: int| 0 <= i < es.len() ==> es[i] == Event::SpawnCompleted(false),
        es.len() + s.next_step >= s.plan@.len(),
        es.len() > 0,
    ensures
        run_steps(s, es).state is Failed,
    decreases es.len(),
{
    assert(es[0] == Event::SpawnCompleted(false));
    let (s1, a1) = spec_step(s, es[0]);
    if s1.state is Failed {
        lemma_terminal_absorbs(s1, es.drop_first());
    } else {
        assert forall|i: int| 0 <= i < es.drop_first().len() implies es.drop_first()[i]
            == Event::SpawnCompleted(false) by {
            assert(es[i + 1] == Event::SpawnCompleted(false));
        }
        lemma_step_preserves_inv(s, es[0]);
        lemma_launching_exhausts(s1, es.drop_first());
    }
}

/// The idempotent short-circuit: when the port already has a listener at
/// host setup, the first probe succeeds, the machine goes straight to
/// `Ready`, the readiness flag is set, the only action ever requested
/// afterwards is the single UI redirect, no launch strategy is ever
/// invoked, and no process is ever spawned or owned.
pub proof fn lemma_short_circuit(plan: Vec<LaunchAttempt>, es: Seq<Event>)
    ensures
        ({
            let s0 = spec_init(plan);
            let (s1, a1) = spec_step(s0, Event::HostSetup);
            let (s2, a2) = spec_step(s1, Event::ProbeCompleted(true));
            &&& a1 == Action::Probe
            &&& a2 == Action::Redirect
            &&& s2.state is Ready
            &&& s2.tracker.ready
            &&& s2.handle.status is NotSpawned
            &&& count_actions(s2, es, is_spawn()) == 0
            &&& run_steps(s2, es) == s2
        }),
{
    let s0 = spec_init(plan);
    let (s1, a1) = spec_step(s0, Event::HostSetup);
    let (s2, a2) = spec_step(s1, Event::ProbeCompleted(true));
    lemma_terminal_absorbs(s2, es);
    assert(!(is_spawn()(Action::Halt)));
}

/// When nothing was located and no manifest enables the dev fallback, the
/// plan is empty: the bootstrap fails outright, readiness stays false
/// forever, and the UI is never redirected.
pub proof fn lemma_no_strategy_fails(plan: Vec<LaunchAttempt>, es: Seq<Event>)
    requires
        plan@.len() == 0,
    ensures
        ({
            let s0 = spec_init(plan);
            let (s1, a1) = spec_step(s0, Event::HostSetup);
            let (s2, a2) = spec_step(s1, Event::ProbeCompleted(false));
            &&& s2.state is Failed
            &&& a2 == Action::Halt
            &&& !s2.tracker.ready
            &&& run_steps(s2, es) == s2
            &&& !run_steps(s2, es).tracker.ready
            &&& count_actions(s2, es, is_redirect()) == 0
        }),
{
    let s0 = spec_init(plan);
    let (s1, a1) = spec_step(s0, Event::HostSetup);
    let (s2, a2) = spec_step(s1, Event::ProbeCompleted(false));
    lemma_terminal_absorbs(s2, es);
    assert(!(is_redirect()(Action::Halt)));
}

impl Supervisor {
    /// A supervisor over a launch plan, before host setup.
    pub fn new(plan: Vec<LaunchAttempt>) -> (s: Supervisor)
        ensures
            s == spec_init(plan),
            inv(s),
    {
        let n = plan.len();
        Supervisor {
            state: SupervisorState::Idle,
            plan,
            next_step: 0,
            attempts_made: 0,
            tracker: ReadinessTracker::new(),
            handle: ProcessHandle::new(),
        }
    }

    /// The UI-facing readiness query.
    pub fn is_ready(&self) -> (b: bool)
        ensures
            b == self.tracker.ready,
    {
        self.tracker.is_ready()
    }

    /// Feeds one host event to the machine; returns the next action.
    pub fn step(&mut self, e: Event) -> (a: Action)
        ensures
            *final(self) == spec_step(*old(self), e).0,
            a == spec_step(*old(self), e).1,
    {
        match (self.state, e) {
            (SupervisorState::Idle, Event::HostSetup) => {
                self.state = SupervisorState::ProbingExisting;
                Action::Probe
            },
            (SupervisorState::ProbingExisting, Event::ProbeCompleted(true)) => {
                self.state = SupervisorState::Ready;
                self.tracker.mark_ready();
                Action::Redirect
            },
            (SupervisorState::ProbingExisting, Event::ProbeCompleted(false)) => {
                if self.plan.len() > 0 {
                    self.state = SupervisorState::Launching;
                    self.next_step = 0;
                    Action::Spawn(0)
                } else {
                    self.state = SupervisorState::Failed;
                    Action::Halt
                }
            },
            (SupervisorState::Launching, Event::SpawnCompleted(true)) => {
                self.state = SupervisorState::Polling;
                self.attempts_made = 0;
                self.handle = ProcessHandle { status: ProcessStatus::Running };
                Action::WaitThenProbe
            },
            (SupervisorState::Launching, Event::SpawnCompleted(false)) => {
                if self.next_step < self.plan.len() {
                    let ns = self.next_step + 1;
                    if ns < self.plan.len() {
                        self.next_step = ns;
                        Action::Spawn(ns)
                    } else {
                        self.state = SupervisorState::Failed;
                        Action::Halt
                    }
                } else {
                    self.state = SupervisorState::Failed;
                    Action::Halt
                }
            },
            (SupervisorState::Polling, Event::ProbeCompleted(true)) => {
                self.state = SupervisorState::Ready;
                self.tracker.mark_ready();
                Action::Redirect
            },
            (SupervisorState::Polling, Event::ProbeCompleted(false)) => {
                if self.attempts_made < MAX_POLL_ATTEMPTS - 1 {
                    self.attempts_made = self.attempts_made + 1;
                    Action::WaitThenProbe
                } else {
                    self.state = SupervisorState::Failed;
                    Action::Halt
                }
            },
            _ => Action::Halt,
        }
    }

    /// The host shut down: decides whether the spawned process must be
    /// killed now. Independent of the bootstrap position; idempotent.
    pub fn on_shutdown(&mut self) -> (kill: bool)
        ensures
            *final(self) == (Supervisor {
                handle: spec_terminate(old(self).handle).0,
                ..*old(self)
            }),
            kill == spec_terminate(old(self).handle).1,
    {
        self.handle.terminate()
    }
}

} // verus!
