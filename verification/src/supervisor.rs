//! The per-execution supervisor: a state machine from engine signals to bus events.
//!
//! The thread that owns a worker reports what the engine did as [`Signal`]s, each with
//! the time of the report; the supervisor answers with the event to publish, if any. An execution moves
//! `Starting → Running → Draining → Exited` and publishes `Started` first and a single
//! `Stopped` last.

use vstd::prelude::*;

use crate::events::optional_text;
use crate::events::MacroEvent;
use crate::events::MacroEventInner;
use crate::events::MacroEventInnerView;
use crate::pid::MacroPID;
use crate::status::ExitStatus;
use crate::status::ExitStatusView;
use crate::text::same_text;

verus! {

/// The engine's message for an execution that was terminated from outside.
pub open spec fn termination_message() -> Seq<char> {
    "Uncaught Error: execution terminated"@
}

/// The message of the defensive `Stopped` event for a supervisor that ended without
/// publishing one.
pub open spec fn panic_message() -> Seq<char> {
    "Macro executor thread unexpectedly panicked"@
}

/// Where an execution stands.
#[derive(Copy, Clone, Debug, PartialEq, Eq, Structural)]
pub enum SupervisorState {
    /// The worker is being constructed.
    Starting,
    /// The main module is being evaluated.
    Running,
    /// The main module returned; the event loop runs until it is quiet.
    Draining,
    /// The terminal event has been published.
    Exited,
}

/// How a call into the engine returned.
#[derive(Debug)]
pub enum RunOutcome {
    Completed,
    /// The engine returned an error with this rendering.
    Failed { message: String },
}

/// Mathematical model of a [`RunOutcome`].
pub enum RunOutcomeView {
    Completed,
    Failed { message: Seq<char> },
}

impl View for RunOutcome {
    type V = RunOutcomeView;

    open spec fn view(&self) -> RunOutcomeView {
        match self {
            RunOutcome::Completed => RunOutcomeView::Completed,
            RunOutcome::Failed { message } => RunOutcomeView::Failed { message: message@ },
        }
    }
}

/// What the supervising thread reports.
#[derive(Debug)]
pub enum Signal {
    /// The worker is constructed, the bootstrap header evaluated and the termination handle
    /// recorded.
    WorkerReady,
    /// Evaluation of the main module returned.
    MainModuleReturned { outcome: RunOutcome },
    /// The event loop returned.
    EventLoopReturned { outcome: RunOutcome },
    /// The script asked to release the host's foreground wait.
    DetachRequested,
    /// The supervising thread is about to end, normally or not.
    ThreadEnded,
}

/// Mathematical model of a [`Signal`].
pub enum SignalView {
    WorkerReady,
    MainModuleReturned { outcome: RunOutcomeView },
    EventLoopReturned { outcome: RunOutcomeView },
    DetachRequested,
    ThreadEnded,
}

impl View for Signal {
    type V = SignalView;

    open spec fn view(&self) -> SignalView {
        match self {
            Signal::WorkerReady => SignalView::WorkerReady,
            Signal::MainModuleReturned { outcome } => SignalView::MainModuleReturned {
                outcome: outcome@,
            },
            Signal::EventLoopReturned { outcome } => SignalView::EventLoopReturned {
                outcome: outcome@,
            },
            Signal::DetachRequested => SignalView::DetachRequested,
            Signal::ThreadEnded => SignalView::ThreadEnded,
        }
    }
}

/// The status of an execution whose engine call failed with `message` at time `now`:
/// `Killed` for the termination message, `Error` with the message for any other.
pub open spec fn failure_status_of(message: Seq<char>, now: int) -> ExitStatusView {
    if message == termination_message() {
        ExitStatusView::Killed { time: now }
    } else {
        ExitStatusView::Error { error_msg: message, time: now }
    }
}

/// The status that a single engine call's outcome yields at time `now`.
pub open spec fn outcome_status_of(outcome: RunOutcomeView, now: int) -> ExitStatusView {
    match outcome {
        RunOutcomeView::Completed => ExitStatusView::Success { time: now },
        RunOutcomeView::Failed { message } => failure_status_of(message, now),
    }
}

/// The exit status rule over both engine calls. `event_loop` is `None` when the event loop
/// was not run. A termination message from either call gives `Killed`; otherwise the first
/// error gives `Error` with its message; otherwise the execution succeeded.
pub open spec fn exit_status_rule(
    main_module: RunOutcomeView,
    event_loop: Option<RunOutcomeView>,
    now: int,
) -> ExitStatusView {
    if main_module == (RunOutcomeView::Failed { message: termination_message() })
        || event_loop == Some(RunOutcomeView::Failed { message: termination_message() }) {
        ExitStatusView::Killed { time: now }
    } else {
        match main_module {
            RunOutcomeView::Failed { message } => ExitStatusView::Error {
                error_msg: message,
                time: now,
            },
            RunOutcomeView::Completed => match event_loop {
                Some(RunOutcomeView::Failed { message }) => ExitStatusView::Error {
                    error_msg: message,
                    time: now,
                },
                _ => ExitStatusView::Success { time: now },
            },
        }
    }
}

/// The state that follows `state` on `signal`. Signals that do not fit the state leave it
/// unchanged; the end of the thread always leads to `Exited`.
pub open spec fn next_state(state: SupervisorState, signal: SignalView) -> SupervisorState {
    match state {
        SupervisorState::Starting => match signal {
            SignalView::WorkerReady => SupervisorState::Running,
            SignalView::ThreadEnded => SupervisorState::Exited,
            _ => SupervisorState::Starting,
        },
        SupervisorState::Running => match signal {
            SignalView::MainModuleReturned { outcome } => match outcome {
                RunOutcomeView::Completed => SupervisorState::Draining,
                RunOutcomeView::Failed { .. } => SupervisorState::Exited,
            },
            SignalView::ThreadEnded => SupervisorState::Exited,
            _ => SupervisorState::Running,
        },
        SupervisorState::Draining => match signal {
            SignalView::EventLoopReturned { .. } => SupervisorState::Exited,
            SignalView::ThreadEnded => SupervisorState::Exited,
            _ => SupervisorState::Draining,
        },
        SupervisorState::Exited => SupervisorState::Exited,
    }
}

/// The event that a supervisor in `state` publishes on `signal` at time `now`, if any.
pub open spec fn published_on(state: SupervisorState, signal: SignalView, now: int) -> Option<
    MacroEventInnerView,
> {
    match state {
        SupervisorState::Starting => match signal {
            SignalView::WorkerReady => Some(MacroEventInnerView::Started),
            SignalView::ThreadEnded => Some(
                MacroEventInnerView::Stopped {
                    exit_status: ExitStatusView::Error { error_msg: panic_message(), time: now },
                },
            ),
            _ => None,
        },
        SupervisorState::Running => match signal {
            SignalView::MainModuleReturned { outcome } => match outcome {
                RunOutcomeView::Completed => None,
                RunOutcomeView::Failed { message } => Some(
                    MacroEventInnerView::Stopped { exit_status: failure_status_of(message, now) },
                ),
            },
            SignalView::DetachRequested => Some(MacroEventInnerView::Detach),
            SignalView::ThreadEnded => Some(
                MacroEventInnerView::Stopped {
                    exit_status: ExitStatusView::Error { error_msg: panic_message(), time: now },
                },
            ),
            _ => None,
        },
        SupervisorState::Draining => match signal {
            SignalView::EventLoopReturned { outcome } => Some(
                MacroEventInnerView::Stopped { exit_status: outcome_status_of(outcome, now) },
            ),
            SignalView::DetachRequested => Some(MacroEventInnerView::Detach),
            SignalView::ThreadEnded => Some(
                MacroEventInnerView::Stopped {
                    exit_status: ExitStatusView::Error { error_msg: panic_message(), time: now },
                },
            ),
            _ => None,
        },
        SupervisorState::Exited => None,
    }
}

/// `trace` with `event` appended, if there is one.
pub open spec fn extended(trace: Seq<MacroEventInnerView>, event: Option<MacroEventInnerView>) -> Seq<
    MacroEventInnerView,
> {
    match event {
        Some(e) => trace.push(e),
        None => trace,
    }
}

/// Whether `trace` is what a supervisor in `state` can have published: nothing while
/// starting; `Started` followed by detach signals while the script runs; and after the
/// exit the same followed by one `Stopped`, or a lone `Stopped` where the worker never
/// came up.
pub open spec fn trace_fits(
    state: SupervisorState,
    worker_came_up: bool,
    trace: Seq<MacroEventInnerView>,
) -> bool {
    match state {
        SupervisorState::Starting => trace.len() == 0 && !worker_came_up,
        SupervisorState::Running | SupervisorState::Draining => {
            &&& worker_came_up
            &&& trace.len() >= 1
            &&& trace[0] is Started
            &&& forall|i: int| 1 <= i < trace.len() ==> #[trigger] trace[i] is Detach
        },
        SupervisorState::Exited => {
            &&& trace.len() >= 1
            &&& trace.last() is Stopped
            &&& if worker_came_up {
                &&& trace.len() >= 2
                &&& trace[0] is Started
                &&& forall|i: int| 1 <= i < trace.len() - 1 ==> #[trigger] trace[i] is Detach
            } else {
                trace.len() == 1
            }
        },
    }
}

/// Whether a supervisor that stood as `before` stands as `after` once it has taken `signal`
/// at time `now` and answered with `event`: the state has moved as [`next_state`] says,
/// the trace has grown by what [`published_on`] says, and `event` is that publication,
/// stamped with the supervisor's identifier and instance.
pub open spec fn stepped(
    before: Supervisor,
    after: Supervisor,
    signal: SignalView,
    now: int,
    event: Option<MacroEvent>,
) -> bool {
    &&& after.pid() == before.pid()
    &&& after.instance() == before.instance()
    &&& after.state() == next_state(before.state(), signal)
    &&& after.worker_came_up() == (before.worker_came_up() || before.state()
        == SupervisorState::Starting && signal is WorkerReady)
    &&& after.trace() == extended(before.trace(), published_on(before.state(), signal, now))
    &&& match event {
        Some(e) => {
            &&& e.macro_pid == before.pid()
            &&& optional_text(e.instance_uuid) == before.instance()
            &&& published_on(before.state(), signal, now) == Some(e.macro_event_inner@)
        },
        None => published_on(before.state(), signal, now) is None,
    }
}

/// The message of the defensive terminal event.
pub fn panic_message_text() -> (text: String)
    ensures
        text@ == panic_message(),
{
    String::from_str("Macro executor thread unexpectedly panicked")
}

/// Decides the status of an execution whose engine call failed with `message`.
pub fn failure_status(message: String, now: i64) -> (status: ExitStatus)
    ensures
        status@ == failure_status_of(message@, now as int),
{
    if same_text(message.as_str(), "Uncaught Error: execution terminated") {
        ExitStatus::Killed { time: now }
    } else {
        ExitStatus::Error { error_msg: message, time: now }
    }
}

/// Decides the status that one engine call's outcome yields.
pub fn outcome_status(outcome: RunOutcome, now: i64) -> (status: ExitStatus)
    ensures
        status@ == outcome_status_of(outcome@, now as int),
{
    match outcome {
        RunOutcome::Completed => ExitStatus::Success { time: now },
        RunOutcome::Failed { message } => failure_status(message, now),
    }
}

/// Decides the exit status from the outcomes of evaluating the main module and of running
/// the event loop (`None` where the loop was not run).
pub fn decide_exit_status(main_module: RunOutcome, event_loop: Option<RunOutcome>, now: i64) -> (status:
    ExitStatus)
    ensures
        status@ == exit_status_rule(
            main_module@,
            match event_loop {
                Some(o) => Some(o@),
                None => None,
            },
            now as int,
        ),
{
    let loop_killed: bool = match &event_loop {
        Some(RunOutcome::Failed { message }) => same_text(
            message.as_str(),
            "Uncaught Error: execution terminated",
        ),
        _ => false,
    };
    match main_module {
        RunOutcome::Failed { message } => {
            if loop_killed {
                ExitStatus::Killed { time: now }
            } else {
                failure_status(message, now)
            }
        },
        RunOutcome::Completed => match event_loop {
            Some(outcome) => outcome_status(outcome, now),
            None => ExitStatus::Success { time: now },
        },
    }
}

/// Supervises one execution.
pub struct Supervisor {
    pid: MacroPID,
    instance_uuid: Option<String>,
    state: SupervisorState,
    worker_came_up: bool,
    trace: Ghost<Seq<MacroEventInnerView>>,
}

impl Supervisor {
    /// The execution that this supervisor owns.
    pub closed spec fn pid(&self) -> MacroPID {
        self.pid
    }

    /// The owning game instance, if any.
    pub closed spec fn instance(&self) -> Option<Seq<char>> {
        optional_text(self.instance_uuid)
    }

    /// Where the execution stands.
    pub closed spec fn state(&self) -> SupervisorState {
        self.state
    }

    /// Whether the worker was reported ready before the execution ended.
    pub closed spec fn worker_came_up(&self) -> bool {
        self.worker_came_up
    }

    /// The events published so far, oldest first.
    pub closed spec fn trace(&self) -> Seq<MacroEventInnerView> {
        self.trace@
    }

    /// The supervisor's invariant: what it has published fits its state.
    pub closed spec fn wf(&self) -> bool {
        trace_fits(self.state, self.worker_came_up, self.trace@)
    }

    /// A supervisor for `pid` that has published nothing yet.
    pub fn new(pid: MacroPID, instance_uuid: Option<String>) -> (supervisor: Supervisor)
        ensures
            supervisor.wf(),
            supervisor.pid() == pid,
            supervisor.instance() == optional_text(instance_uuid),
            supervisor.state() == SupervisorState::Starting,
            !supervisor.worker_came_up(),
            supervisor.trace() == Seq::<MacroEventInnerView>::empty(),
    {
        Supervisor {
            pid,
            instance_uuid,
            state: SupervisorState::Starting,
            worker_came_up: false,
            trace: Ghost(Seq::empty()),
        }
    }

    /// The execution that this supervisor owns.
    pub fn macro_pid(&self) -> (pid: MacroPID)
        ensures
            pid == self.pid(),
    {
        self.pid
    }

    /// Where the execution stands.
    pub fn current_state(&self) -> (state: SupervisorState)
        ensures
            state == self.state(),
    {
        self.state
    }

    /// Whether the worker was reported ready before the execution ended.
    pub fn has_started(&self) -> (yes: bool)
        ensures
            yes == self.worker_came_up(),
    {
        self.worker_came_up
    }

    /// Takes one signal at time `now`: moves to the next state and returns the event to
    /// publish, if the signal calls for one.
    pub fn handle_at(&mut self, signal: Signal, now: i64) -> (event: Option<MacroEvent>)
        requires
            old(self).wf(),
        ensures
            final(self).wf(),
            stepped(*old(self), *final(self), signal@, now as int, event),
    {
        let inner: Option<MacroEventInner> = match self.state {
            SupervisorState::Starting => match signal {
                Signal::WorkerReady => {
                    self.state = SupervisorState::Running;
                    self.worker_came_up = true;
                    Some(MacroEventInner::Started)
                },
                Signal::ThreadEnded => {
                    self.state = SupervisorState::Exited;
                    Some(
                        MacroEventInner::Stopped {
                            exit_status: ExitStatus::Error {
                                error_msg: panic_message_text(),
                                time: now,
                            },
                        },
                    )
                },
                _ => None,
            },
            SupervisorState::Running => match signal {
                Signal::MainModuleReturned { outcome } => match outcome {
                    RunOutcome::Completed => {
                        self.state = SupervisorState::Draining;
                        None
                    },
                    RunOutcome::Failed { message } => {
                        self.state = SupervisorState::Exited;
                        Some(MacroEventInner::Stopped { exit_status: failure_status(message, now) })
                    },
                },
                Signal::DetachRequested => Some(MacroEventInner::Detach),
                Signal::ThreadEnded => {
                    self.state = SupervisorState::Exited;
                    Some(
                        MacroEventInner::Stopped {
                            exit_status: ExitStatus::Error {
                                error_msg: panic_message_text(),
                                time: now,
                            },
                        },
                    )
                },
                _ => None,
            },
            SupervisorState::Draining => match signal {
                Signal::EventLoopReturned { outcome } => {
                    self.state = SupervisorState::Exited;
                    Some(MacroEventInner::Stopped { exit_status: outcome_status(outcome, now) })
                },
                Signal::DetachRequested => Some(MacroEventInner::Detach),
                Signal::ThreadEnded => {
                    self.state = SupervisorState::Exited;
                    Some(
                        MacroEventInner::Stopped {
                            exit_status: ExitStatus::Error {
                                error_msg: panic_message_text(),
                                time: now,
                            },
                        },
                    )
                },
                _ => None,
            },
            SupervisorState::Exited => None,
        };
        match inner {
            Some(macro_event_inner) => {
                proof {
                    self.trace@ = self.trace@.push(macro_event_inner@);
                }
                Some(
                    MacroEvent {
                        macro_pid: self.pid,
                        macro_event_inner,
                        instance_uuid: self.instance_uuid.clone(),
                    },
                )
            },
            None => None,
        }
    }
}

/// Bus order for one execution: a supervisor whose worker came up has published `Started`
/// first; it has published a `Stopped` exactly when it has exited, and then as its last
/// event and only once.
pub proof fn lemma_started_first_stopped_last(supervisor: Supervisor)
    requires
        supervisor.wf(),
        supervisor.worker_came_up(),
    ensures
        supervisor.trace().len() >= 1,
        supervisor.trace().first() is Started,
        supervisor.state() == SupervisorState::Exited ==> supervisor.trace().last() is Stopped,
        forall|i: int|
            0 <= i < supervisor.trace().len() ==> (#[trigger] supervisor.trace()[i] is Stopped <==> (
            supervisor.state() == SupervisorState::Exited && i == supervisor.trace().len() - 1)),
{
}

/// A supervisor publishes at most one terminal event: none before it has exited and
/// exactly one, its last event, once it has.
pub proof fn lemma_single_terminal_event(supervisor: Supervisor, i: int, j: int)
    requires
        supervisor.wf(),
        0 <= i < supervisor.trace().len(),
        0 <= j < supervisor.trace().len(),
        supervisor.trace()[i] is Stopped,
        supervisor.trace()[j] is Stopped,
    ensures
        i == j,
        supervisor.state() == SupervisorState::Exited,
{
}

/// Once a supervisor has exited, no signal makes it publish again or leave that state.
pub proof fn lemma_exited_is_final(signal: SignalView, now: int)
    ensures
        next_state(SupervisorState::Exited, signal) == SupervisorState::Exited,
        published_on(SupervisorState::Exited, signal, now) is None,
{
}

/// Abort ends in `Killed`: when the engine reports that the execution was terminated,
/// from the main module or from the event loop, the supervisor exits and publishes
/// `Stopped` with `Killed` and the time of the report.
pub proof fn lemma_termination_is_published_as_killed(now: int)
    ensures
        published_on(
            SupervisorState::Running,
            SignalView::MainModuleReturned {
                outcome: RunOutcomeView::Failed { message: termination_message() },
            },
            now,
        ) == Some(MacroEventInnerView::Stopped { exit_status: ExitStatusView::Killed { time: now } }),
        published_on(
            SupervisorState::Draining,
            SignalView::EventLoopReturned {
                outcome: RunOutcomeView::Failed { message: termination_message() },
            },
            now,
        ) == Some(MacroEventInnerView::Stopped { exit_status: ExitStatusView::Killed { time: now } }),
        next_state(
            SupervisorState::Running,
            SignalView::MainModuleReturned {
                outcome: RunOutcomeView::Failed { message: termination_message() },
            },
        ) == SupervisorState::Exited,
        next_state(
            SupervisorState::Draining,
            SignalView::EventLoopReturned {
                outcome: RunOutcomeView::Failed { message: termination_message() },
            },
        ) == SupervisorState::Exited,
{
}

/// The statuses that a supervisor publishes follow the exit status rule: a failed main
/// module is judged without an event loop run, and an event loop outcome after a
/// completed main module.
pub proof fn lemma_published_status_follows_rule(outcome: RunOutcomeView, now: int)
    ensures
        outcome matches RunOutcomeView::Failed { message } ==> failure_status_of(message, now)
            == exit_status_rule(outcome, None, now),
        outcome_status_of(outcome, now) == exit_status_rule(
            RunOutcomeView::Completed,
            Some(outcome),
            now,
        ),
{
}

/// An execution is reported as `Success` only if no engine call failed: any failure, such
/// as an operation that the permission set denies, ends in `Killed` or `Error`.
pub proof fn lemma_failure_is_never_success(
    main_module: RunOutcomeView,
    event_loop: Option<RunOutcomeView>,
    now: int,
)
    ensures
        exit_status_rule(main_module, event_loop, now) is Success <==> (main_module is Completed
            && !(event_loop matches Some(o) && o is Failed)),
        exit_status_rule(main_module, event_loop, now) is Killed <==> (main_module == (
        RunOutcomeView::Failed { message: termination_message() }) || event_loop == Some(
            RunOutcomeView::Failed { message: termination_message() },
        )),
{
}

} // verus!
