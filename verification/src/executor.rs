//! The executor facade: identifier allocation, spawn planning, termination, the mirror of
//! terminal events into the exit table, and what a waiter reads off the bus.
//!
//! The facade holds no threads and no engine. A host calls [`MacroExecutor::spawn`] for a
//! plan, starts a supervising thread for it, feeds every bus event to
//! [`MacroExecutor::observe`], and asks the `wait_*` functions what a stretch of the bus
//! means for a waiter.

use vstd::prelude::*;

use crate::error::Error;
use crate::error::ErrorKind;
use crate::events::detach_seen;
use crate::events::event_views;
use crate::events::first_stopped;
use crate::events::is_detach_of;
use crate::events::is_started_of;
use crate::events::lemma_first_stopped_concat;
use crate::events::optional_text;
use crate::events::started_seen;
use crate::events::stopped_status;
use crate::events::MacroEvent;
use crate::events::MacroEventInnerView;
use crate::events::MacroEventView;
use crate::pid::successor;
use crate::pid::MacroPID;
use crate::pid::PidAllocator;
use crate::status::optional_status;
use crate::status::ExitStatus;
use crate::status::ExitStatusView;
use crate::supervisor::stepped;
use crate::supervisor::Signal;
use crate::supervisor::SignalView;
use crate::supervisor::Supervisor;
use crate::supervisor::SupervisorState;
use crate::table::not_found_message;
use crate::table::with_exit;
use crate::table::ProcessTable;
use crate::worker::bootstrap_header;
use crate::worker::bootstrap_script;
use crate::worker::effective_permissions;
use crate::worker::resolve_permissions;
use crate::worker::Permissions;

verus! {

/// How long `spawn` waits for the `Started` event of the new execution, in milliseconds.
pub const STARTED_TIMEOUT_MILLIS: u64 = 1000;

/// Everything a supervising thread needs to set up and run one execution.
#[derive(Debug)]
pub struct SpawnPlan {
    pub macro_pid: MacroPID,
    pub path_to_main_module: String,
    pub args: Vec<String>,
    pub permissions: Permissions,
    pub instance_uuid: Option<String>,
    /// The script to evaluate before the main module.
    pub bootstrap_script: String,
}

impl SpawnPlan {
    /// The supervisor for the planned execution, before its worker is constructed.
    pub fn supervisor(&self) -> (supervisor: Supervisor)
        ensures
            supervisor.wf(),
            supervisor.pid() == self.macro_pid,
            supervisor.instance() == optional_text(self.instance_uuid),
            supervisor.state() == SupervisorState::Starting,
            !supervisor.worker_came_up(),
            supervisor.trace() == Seq::<MacroEventInnerView>::empty(),
    {
        Supervisor::new(self.macro_pid, self.instance_uuid.clone())
    }
}

/// What a successful spawn hands to its caller.
#[derive(Copy, Clone, Debug, PartialEq, Eq, Structural)]
pub struct SpawnResult {
    pub macro_pid: MacroPID,
}

/// How the wait for the `Started` event of a new execution ended.
#[derive(Copy, Clone, Debug, PartialEq, Eq, Structural)]
pub enum StartObservation {
    /// The event arrived in time.
    Started,
    /// The time ran out first.
    TimedOut,
    /// The bus could not be read.
    BusClosed,
}

/// The message of a spawn that timed out.
pub open spec fn spawn_timeout_message() -> Seq<char> {
    "Failed to spawn macro"@
}

/// The message of a spawn whose bus subscription broke.
pub open spec fn bus_closed_message() -> Seq<char> {
    "Failed to receive macro started event"@
}

/// What the wait for `Started` has come to after `elapsed_millis`, given the events seen
/// since the spawn: done once the event is among them, timed out once the window has
/// passed without it, and undecided (`None`) before that.
pub open spec fn start_observation(
    log: Seq<MacroEventView>,
    pid: MacroPID,
    elapsed_millis: u64,
) -> Option<StartObservation> {
    if started_seen(log, pid) {
        Some(StartObservation::Started)
    } else if elapsed_millis >= STARTED_TIMEOUT_MILLIS {
        Some(StartObservation::TimedOut)
    } else {
        None
    }
}

/// The exit table after the bus mirror has taken `event`.
pub open spec fn mirrored_one(
    exits: Map<usize, ExitStatusView>,
    event: MacroEventView,
) -> Map<usize, ExitStatusView> {
    match stopped_status(event, event.macro_pid) {
        Some(status) => with_exit(exits, event.macro_pid.0, status),
        None => exits,
    }
}

/// The exit table after the bus mirror has taken the events of `log` in order.
pub open spec fn mirrored(
    exits: Map<usize, ExitStatusView>,
    log: Seq<MacroEventView>,
) -> Map<usize, ExitStatusView>
    decreases log.len(),
{
    if log.len() == 0 {
        exits
    } else {
        mirrored_one(mirrored(exits, log.drop_last()), log.last())
    }
}

/// Whether one of `events` announces the start of `pid`.
fn start_among(events: &Vec<MacroEvent>, pid: MacroPID) -> (seen: bool)
    ensures
        seen == started_seen(event_views(events@), pid),
{
    let mut i: usize = 0;
    while i < events.len()
        invariant
            i <= events.len(),
            forall|k: int| 0 <= k < i ==> !is_started_of(#[trigger] event_views(events@)[k], pid),
        decreases events.len() - i,
    {
        if events[i].announces_start_of(pid) {
            assert(is_started_of(event_views(events@)[i as int], pid));
            return true;
        }
        i += 1;
    }
    false
}

/// The facade over identifier allocation and the process table.
pub struct MacroExecutor {
    pids: PidAllocator,
    table: ProcessTable,
}

impl MacroExecutor {
    /// The identifier that the next spawn returns.
    pub closed spec fn next_pid(&self) -> usize {
        self.pids.next_pid()
    }

    /// How many executions were spawned so far.
    pub closed spec fn spawn_count(&self) -> nat {
        self.pids.handed_out()
    }

    /// The identifiers with a termination handle on record.
    pub closed spec fn live(&self) -> Set<usize> {
        self.table.live()
    }

    /// The recorded exit statuses.
    pub closed spec fn exits(&self) -> Map<usize, ExitStatusView> {
        self.table.exits()
    }

    /// An executor that has spawned nothing.
    pub fn new() -> (executor: MacroExecutor)
        ensures
            executor.next_pid() == 0,
            executor.spawn_count() == 0,
            executor.live() == Set::<usize>::empty(),
            executor.exits() == Map::<usize, ExitStatusView>::empty(),
    {
        MacroExecutor { pids: PidAllocator::new(), table: ProcessTable::new() }
    }

    /// Allocates the identifier of a new execution and plans it: the permission set is
    /// the caller's or, where none is given, the one that grants everything, and the
    /// bootstrap script names the new identifier and the owning instance. The tables
    /// do not change.
    ///
    /// Until the counter wraps around, the identifier is the number of spawns before this
    /// one. So it is larger than the identifier of every earlier spawn, whether that
    /// spawn was concluded with success or not, and no two spawns share one.
    pub fn spawn(
        &mut self,
        path_to_main_module: String,
        args: Vec<String>,
        permissions: Option<Permissions>,
        instance_uuid: Option<String>,
    ) -> (plan: SpawnPlan)
        ensures
            plan.macro_pid.0 == old(self).next_pid(),
            final(self).next_pid() == successor(old(self).next_pid()),
            final(self).spawn_count() == old(self).spawn_count() + 1,
            old(self).spawn_count() <= usize::MAX ==> plan.macro_pid.0 == old(self).spawn_count(),
            final(self).live() == old(self).live(),
            final(self).exits() == old(self).exits(),
            plan.path_to_main_module@ == path_to_main_module@,
            plan.args == args,
            plan.permissions == effective_permissions(permissions),
            optional_text(plan.instance_uuid) == optional_text(instance_uuid),
            plan.bootstrap_script@ == bootstrap_header(plan.macro_pid, optional_text(instance_uuid)),
    {
        let macro_pid: MacroPID = self.pids.allocate();
        let script: String = bootstrap_script(macro_pid, &instance_uuid);
        SpawnPlan {
            macro_pid,
            path_to_main_module,
            args,
            permissions: resolve_permissions(permissions),
            instance_uuid,
            bootstrap_script: script,
        }
    }

    /// Records that the termination handle of `pid` is available. The supervising
    /// thread calls this once its worker is constructed, before it announces the start.
    pub fn register_handle(&mut self, pid: MacroPID)
        ensures
            final(self).live() == old(self).live().insert(pid.0),
            final(self).exits() == old(self).exits(),
            final(self).next_pid() == old(self).next_pid(),
            final(self).spawn_count() == old(self).spawn_count(),
    {
        self.table.insert_live(pid);
    }

    /// Takes the report that the worker of `supervisor` is ready: records its termination
    /// handle and has the supervisor announce the start, in this order, so that an
    /// execution whose start is on the bus can be aborted. A supervisor that is past
    /// its start changes nothing.
    pub fn announce_start(&mut self, supervisor: &mut Supervisor, now: i64) -> (event: Option<
        MacroEvent,
    >)
        requires
            old(supervisor).wf(),
        ensures
            final(supervisor).wf(),
            stepped(*old(supervisor), *final(supervisor), SignalView::WorkerReady, now as int, event),
            final(self).live() == if old(supervisor).state() == SupervisorState::Starting {
                old(self).live().insert(old(supervisor).pid().0)
            } else {
                old(self).live()
            },
            event is Some <==> old(supervisor).state() == SupervisorState::Starting,
            event is Some ==> final(self).live().contains(old(supervisor).pid().0),
            final(self).exits() == old(self).exits(),
            final(self).next_pid() == old(self).next_pid(),
            final(self).spawn_count() == old(self).spawn_count(),
    {
        match supervisor.current_state() {
            SupervisorState::Starting => {
                self.table.insert_live(supervisor.macro_pid());
            },
            _ => {},
        }
        supervisor.handle_at(Signal::WorkerReady, now)
    }

    /// Tells what the wait for the `Started` event of `pid` has come to, given the events
    /// seen since the spawn and the time waited.
    pub fn observe_start(&self, events: &Vec<MacroEvent>, pid: MacroPID, elapsed_millis: u64) -> (observation:
        Option<StartObservation>)
        ensures
            observation == start_observation(event_views(events@), pid, elapsed_millis),
    {
        if start_among(events, pid) {
            Some(StartObservation::Started)
        } else if elapsed_millis >= STARTED_TIMEOUT_MILLIS {
            Some(StartObservation::TimedOut)
        } else {
            None
        }
    }

    /// Concludes a spawn: success exactly when the `Started` event was observed in time.
    pub fn spawn_result(&self, pid: MacroPID, observation: StartObservation) -> (result: Result<
        SpawnResult,
        Error,
    >)
        ensures
            match observation {
                StartObservation::Started => result == Ok::<SpawnResult, Error>(
                    SpawnResult { macro_pid: pid },
                ),
                StartObservation::TimedOut => result matches Err(e) && e@.kind
                    == ErrorKind::Internal && e@.source == spawn_timeout_message(),
                StartObservation::BusClosed => result matches Err(e) && e@.kind
                    == ErrorKind::Internal && e@.source == bus_closed_message(),
            },
    {
        match observation {
            StartObservation::Started => Ok(SpawnResult { macro_pid: pid }),
            StartObservation::TimedOut => Err(
                Error { kind: ErrorKind::Internal, source: String::from_str("Failed to spawn macro") },
            ),
            StartObservation::BusClosed => Err(
                Error {
                    kind: ErrorKind::Internal,
                    source: String::from_str("Failed to receive macro started event"),
                },
            ),
        }
    }

    /// Asks for the termination of `pid`. `Ok` tells the host to invoke the termination
    /// handle of `pid`; an identifier without a handle on record gives `NotFound`.
    /// Nothing in the executor changes: identifiers allocated later are not affected.
    pub fn abort_macro(&self, pid: MacroPID) -> (answer: Result<(), Error>)
        ensures
            answer is Ok <==> self.live().contains(pid.0),
            answer matches Err(e) ==> e@.kind == ErrorKind::NotFound && e@.source
                == not_found_message(pid),
    {
        self.table.terminate(pid)
    }

    /// The exit status recorded for `pid`, if any. The answer depends on the exit table
    /// alone and the call changes nothing.
    pub fn get_macro_status(&self, pid: MacroPID) -> (status: Option<ExitStatus>)
        ensures
            optional_status(status) == self.exits().get(pid.0),
    {
        self.table.get_exit(pid)
    }

    /// The bus mirror: a `Stopped` event is recorded in the exit table unless its execution
    /// already has a status there; other events change nothing.
    pub fn observe(&mut self, event: &MacroEvent)
        ensures
            final(self).exits() == mirrored_one(old(self).exits(), event@),
            final(self).live() == old(self).live(),
            final(self).next_pid() == old(self).next_pid(),
            final(self).spawn_count() == old(self).spawn_count(),
    {
        match event.exit_status_for(event.macro_pid) {
            Some(status) => {
                self.table.record_exit(event.macro_pid, status);
            },
            None => {},
        }
    }

    /// The bus mirror over a stretch of the bus, oldest event first.
    pub fn observe_all(&mut self, events: &Vec<MacroEvent>)
        ensures
            final(self).exits() == mirrored(old(self).exits(), event_views(events@)),
            final(self).live() == old(self).live(),
            final(self).next_pid() == old(self).next_pid(),
            final(self).spawn_count() == old(self).spawn_count(),
    {
        let mut i: usize = 0;
        assert(event_views(events@).take(0) =~= Seq::<MacroEventView>::empty());
        while i < events.len()
            invariant
                i <= events.len(),
                self.exits() == mirrored(old(self).exits(), event_views(events@).take(i as int)),
                self.live() == old(self).live(),
                self.next_pid() == old(self).next_pid(),
                self.spawn_count() == old(self).spawn_count(),
            decreases events.len() - i,
        {
            self.observe(&events[i]);
            proof {
                let log = event_views(events@);
                assert(log.take(i + 1).drop_last() =~= log.take(i as int));
                assert(log.take(i + 1).last() == events@[i as int]@);
            }
            i += 1;
        }
        assert(event_views(events@).take(events.len() as int) =~= event_views(events@));
    }

    /// What a waiter for the exit of `pid` reads off `events`: the status carried by the
    /// first `Stopped` event of `pid`, or `None` where there is none yet.
    pub fn wait_with_timeout(&self, events: &Vec<MacroEvent>, pid: MacroPID) -> (status: Option<
        ExitStatus,
    >)
        ensures
            optional_status(status) == first_stopped(event_views(events@), pid),
    {
        let ghost log = event_views(events@);
        let mut i: usize = 0;
        assert(log.skip(0) =~= log);
        while i < events.len()
            invariant
                i <= events.len(),
                log == event_views(events@),
                first_stopped(log, pid) == first_stopped(log.skip(i as int), pid),
            decreases events.len() - i,
        {
            let found: Option<ExitStatus> = events[i].exit_status_for(pid);
            proof {
                assert(log.skip(i as int)[0] == events@[i as int]@);
                assert(log.skip(i as int).skip(1) =~= log.skip(i + 1));
            }
            if found.is_some() {
                return found;
            }
            i += 1;
        }
        None
    }

    /// Whether a waiter for the detach of `pid` is released by `events`: whether a `Detach`
    /// event of `pid` is among them.
    pub fn wait_for_detach(&self, events: &Vec<MacroEvent>, pid: MacroPID) -> (released: bool)
        ensures
            released == detach_seen(event_views(events@), pid),
    {
        let mut i: usize = 0;
        while i < events.len()
            invariant
                i <= events.len(),
                forall|k: int|
                    0 <= k < i ==> !is_detach_of(#[trigger] event_views(events@)[k], pid),
            decreases events.len() - i,
        {
            if events[i].signals_detach_of(pid) {
                assert(is_detach_of(event_views(events@)[i as int], pid));
                return true;
            }
            i += 1;
        }
        false
    }
}

/// Identifier uniqueness at the executor: of two spawns before the counter wraps around,
/// the later one gets the larger identifier, so no two spawns share one.
pub proof fn lemma_later_spawn_gets_larger_pid(
    before_earlier: MacroExecutor,
    before_later: MacroExecutor,
    earlier: MacroPID,
    later: MacroPID,
)
    requires
        before_earlier.spawn_count() < before_later.spawn_count() <= usize::MAX,
        earlier.0 == before_earlier.spawn_count(),
        later.0 == before_later.spawn_count(),
    ensures
        earlier.0 < later.0,
        earlier != later,
{
}

/// Mirroring a log leaves the status of an execution that already has one, and gives any
/// other execution the status of its first `Stopped` event in the log.
pub proof fn lemma_mirrored_entry(exits: Map<usize, ExitStatusView>, log: Seq<MacroEventView>, pid: MacroPID)
    ensures
        mirrored(exits, log).get(pid.0) == if exits.contains_key(pid.0) {
            Some(exits[pid.0])
        } else {
            first_stopped(log, pid)
        },
    decreases log.len(),
{
    if log.len() > 0 {
        let front = log.drop_last();
        let last = log.last();
        lemma_mirrored_entry(exits, front, pid);
        assert(log =~= front + seq![last]);
        lemma_first_stopped_concat(front, seq![last], pid);
        assert(seq![last].skip(1) =~= Seq::<MacroEventView>::empty());
        assert(first_stopped(seq![last].skip(1), pid) is None);
        assert(first_stopped(seq![last], pid) == stopped_status(last, pid));
        if last.macro_pid != pid {
            assert(last.macro_pid.0 != pid.0);
        }
    }
}

/// Status agreement: once the mirror has taken a stretch of the bus on which a waiter saw
/// `pid` exit, the status on record for `pid` is the one that the waiter saw, provided
/// that no status was on record for `pid` before.
pub proof fn lemma_status_agreement(
    before: MacroExecutor,
    after: MacroExecutor,
    log: Seq<MacroEventView>,
    pid: MacroPID,
    seen: ExitStatusView,
)
    requires
        !before.exits().contains_key(pid.0),
        after.exits() == mirrored(before.exits(), log),
        first_stopped(log, pid) == Some(seen),
    ensures
        after.exits().get(pid.0) == Some(seen),
{
    lemma_mirrored_entry(before.exits(), log, pid);
}

/// A recorded exit status never changes: whatever the mirror takes afterwards, the
/// status of `pid` stays.
pub proof fn lemma_recorded_status_stays(
    exits: Map<usize, ExitStatusView>,
    log: Seq<MacroEventView>,
    pid: MacroPID,
)
    requires
        exits.contains_key(pid.0),
    ensures
        mirrored(exits, log).get(pid.0) == Some(exits[pid.0]),
{
    lemma_mirrored_entry(exits, log, pid);
}

} // verus!
