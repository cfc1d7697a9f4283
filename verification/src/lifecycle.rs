//! A model of the whole subsystem: every execution with its supervisor, the bus, and the
//! exit table that mirrors the bus.
//!
//! The model moves by two kinds of steps, a spawn and a signal to one supervisor, each
//! defined by the same functions that the executor and the supervisor are specified
//! with. Its invariant gives the guarantees that consumers of the bus rely on.

use vstd::prelude::*;

use crate::events::first_stopped;
use crate::events::MacroEventInnerView;
use crate::events::MacroEventView;
use crate::executor::lemma_mirrored_entry;
use crate::executor::mirrored;
use crate::executor::mirrored_one;
use crate::pid::MacroPID;
use crate::status::ExitStatusView;
use crate::supervisor::extended;
use crate::supervisor::next_state;
use crate::supervisor::published_on;
use crate::supervisor::stepped;
use crate::supervisor::trace_fits;
use crate::supervisor::SignalView;
use crate::supervisor::Supervisor;
use crate::supervisor::SupervisorState;

verus! {

/// One execution, as its supervisor stands.
pub struct Execution {
    pub instance: Option<Seq<char>>,
    pub state: SupervisorState,
    pub worker_came_up: bool,
    pub trace: Seq<MacroEventInnerView>,
}

/// The subsystem at one moment.
pub struct World {
    /// The identifier that the next spawn hands out.
    pub next_pid: usize,
    /// How many executions were spawned.
    pub spawned: nat,
    /// The executions by raw identifier.
    pub executions: Map<usize, Execution>,
    /// Everything published so far, oldest first.
    pub bus: Seq<MacroEventView>,
    /// The exit table.
    pub exits: Map<usize, ExitStatusView>,
}

/// What can happen.
pub enum Step {
    /// A caller spawns an execution for the given instance.
    Spawn { instance: Option<Seq<char>> },
    /// The supervisor of `pid` takes `signal` at time `now`.
    Signal { pid: usize, signal: SignalView, now: int },
}

/// The subsystem before anything happened.
pub open spec fn initial() -> World {
    World {
        next_pid: 0,
        spawned: 0,
        executions: Map::empty(),
        bus: Seq::empty(),
        exits: Map::empty(),
    }
}

/// An execution that was just spawned.
pub open spec fn fresh(instance: Option<Seq<char>>) -> Execution {
    Execution {
        instance,
        state: SupervisorState::Starting,
        worker_came_up: false,
        trace: Seq::empty(),
    }
}

/// The execution after its supervisor has taken `signal` at time `now`.
pub open spec fn signalled(execution: Execution, signal: SignalView, now: int) -> Execution {
    Execution {
        instance: execution.instance,
        state: next_state(execution.state, signal),
        worker_came_up: execution.worker_came_up || (execution.state == SupervisorState::Starting
            && signal is WorkerReady),
        trace: extended(execution.trace, published_on(execution.state, signal, now)),
    }
}

/// The subsystem after `step`. A spawn records a fresh execution under the next
/// identifier. A signal moves the supervisor it is for; what that supervisor publishes
/// goes onto the bus and through the mirror into the exit table. A signal for an
/// identifier that was never spawned changes nothing.
pub open spec fn after(world: World, step: Step) -> World {
    match step {
        Step::Spawn { instance } => World {
            next_pid: crate::pid::successor(world.next_pid),
            spawned: world.spawned + 1,
            executions: world.executions.insert(world.next_pid, fresh(instance)),
            ..world
        },
        Step::Signal { pid, signal, now } => if world.executions.contains_key(pid) {
            let execution = world.executions[pid];
            let moved = signalled(execution, signal, now);
            match published_on(execution.state, signal, now) {
                Some(inner) => {
                    let event = MacroEventView {
                        macro_pid: MacroPID(pid),
                        macro_event_inner: inner,
                        instance_uuid: execution.instance,
                    };
                    World {
                        executions: world.executions.insert(pid, moved),
                        bus: world.bus.push(event),
                        exits: mirrored_one(world.exits, event),
                        ..world
                    }
                },
                None => World { executions: world.executions.insert(pid, moved), ..world },
            }
        } else {
            world
        },
    }
}

/// The subsystem after `steps`, taken in order from the beginning.
pub open spec fn reached(steps: Seq<Step>) -> World
    decreases steps.len(),
{
    if steps.len() == 0 {
        initial()
    } else {
        after(reached(steps.drop_last()), steps.last())
    }
}

/// How many of `steps` are spawns.
pub open spec fn spawns_in(steps: Seq<Step>) -> nat
    decreases steps.len(),
{
    if steps.len() == 0 {
        0
    } else if steps.last() is Spawn {
        spawns_in(steps.drop_last()) + 1
    } else {
        spawns_in(steps.drop_last())
    }
}

/// The events of `pid` on `bus`, in bus order.
pub open spec fn events_of(bus: Seq<MacroEventView>, pid: usize) -> Seq<MacroEventInnerView>
    decreases bus.len(),
{
    if bus.len() == 0 {
        Seq::empty()
    } else if bus.last().macro_pid.0 == pid {
        events_of(bus.drop_last(), pid).push(bus.last().macro_event_inner)
    } else {
        events_of(bus.drop_last(), pid)
    }
}

/// The invariant of the subsystem, as long as the identifier counter has not wrapped:
/// the spawned executions are exactly those below the counter; each has published, in
/// bus order, what fits its supervisor's state; every event on the bus belongs to a
/// spawned execution and carries its instance; and the exit table is the mirror of the
/// bus.
pub open spec fn consistent(world: World) -> bool {
    &&& world.spawned == world.next_pid
    &&& forall|pid: usize| #[trigger] world.executions.contains_key(pid) <==> pid < world.next_pid
    &&& forall|pid: usize| #[trigger]
        world.executions.contains_key(pid) ==> {
            &&& trace_fits(
                world.executions[pid].state,
                world.executions[pid].worker_came_up,
                world.executions[pid].trace,
            )
            &&& events_of(world.bus, pid) == world.executions[pid].trace
        }
    &&& forall|i: int|
        0 <= i < world.bus.len() ==> {
            &&& world.executions.contains_key((#[trigger] world.bus[i]).macro_pid.0)
            &&& world.bus[i].instance_uuid
                == world.executions[world.bus[i].macro_pid.0].instance
        }
    &&& world.exits == mirrored(Map::empty(), world.bus)
}

/// A supervisor as an execution of the model.
pub open spec fn execution_of(supervisor: Supervisor) -> Execution {
    Execution {
        instance: supervisor.instance(),
        state: supervisor.state(),
        worker_came_up: supervisor.worker_came_up(),
        trace: supervisor.trace(),
    }
}

/// The supervisor moves as the model says: what its operations promise is one signal
/// step of its execution.
pub proof fn lemma_supervisor_follows_model(
    before: Supervisor,
    later: Supervisor,
    signal: SignalView,
    now: int,
    event: Option<crate::events::MacroEvent>,
)
    requires
        stepped(before, later, signal, now, event),
    ensures
        execution_of(later) == signalled(execution_of(before), signal, now),
        match event {
            Some(e) => published_on(before.state(), signal, now) == Some(e@.macro_event_inner)
                && e@.macro_pid == before.pid() && e@.instance_uuid == before.instance(),
            None => published_on(before.state(), signal, now) is None,
        },
{
}

/// A signal step keeps the fit between what an execution has published and its state.
proof fn lemma_signalled_fits(execution: Execution, signal: SignalView, now: int)
    requires
        trace_fits(execution.state, execution.worker_came_up, execution.trace),
    ensures
        trace_fits(
            signalled(execution, signal, now).state,
            signalled(execution, signal, now).worker_came_up,
            signalled(execution, signal, now).trace,
        ),
{
}

/// The events of an execution on a bus that grew by one event.
proof fn lemma_events_of_push(bus: Seq<MacroEventView>, event: MacroEventView, pid: usize)
    ensures
        events_of(bus.push(event), pid) == if event.macro_pid.0 == pid {
            events_of(bus, pid).push(event.macro_event_inner)
        } else {
            events_of(bus, pid)
        },
{
    assert(bus.push(event).drop_last() =~= bus);
    assert(bus.push(event).last() == event);
}

/// Every step keeps the invariant, as long as a spawn does not wrap the counter.
pub proof fn lemma_step_keeps_consistency(world: World, step: Step)
    requires
        consistent(world),
        step is Spawn ==> world.next_pid < usize::MAX,
    ensures
        consistent(after(world, step)),
{
    let next = after(world, step);
    match step {
        Step::Spawn { instance } => {
            assert forall|pid: usize| #[trigger] next.executions.contains_key(pid) implies {
                &&& trace_fits(
                    next.executions[pid].state,
                    next.executions[pid].worker_came_up,
                    next.executions[pid].trace,
                )
                &&& events_of(next.bus, pid) == next.executions[pid].trace
            } by {
                if pid == world.next_pid {
                    lemma_no_events_of_unknown(world, pid);
                }
            }
        },
        Step::Signal { pid, signal, now } => {
            if world.executions.contains_key(pid) {
                let execution = world.executions[pid];
                lemma_signalled_fits(execution, signal, now);
                match published_on(execution.state, signal, now) {
                    Some(inner) => {
                        let event = MacroEventView {
                            macro_pid: MacroPID(pid),
                            macro_event_inner: inner,
                            instance_uuid: execution.instance,
                        };
                        assert forall|other: usize| #[trigger]
                            next.executions.contains_key(other) implies events_of(next.bus, other)
                            == next.executions[other].trace by {
                            lemma_events_of_push(world.bus, event, other);
                        }
                        assert(world.bus.push(event).drop_last() =~= world.bus);
                        assert forall|i: int| 0 <= i < next.bus.len() implies {
                            &&& next.executions.contains_key((#[trigger] next.bus[i]).macro_pid.0)
                            &&& next.bus[i].instance_uuid
                                == next.executions[next.bus[i].macro_pid.0].instance
                        } by {
                            if i < world.bus.len() {
                                assert(next.bus[i] == world.bus[i]);
                            }
                        }
                    },
                    None => {
                        assert forall|i: int| 0 <= i < next.bus.len() implies {
                            &&& next.executions.contains_key((#[trigger] next.bus[i]).macro_pid.0)
                            &&& next.bus[i].instance_uuid
                                == next.executions[next.bus[i].macro_pid.0].instance
                        } by {
                            assert(next.bus[i] == world.bus[i]);
                        }
                    },
                }
            }
        },
    }
}

/// An identifier that was not spawned has no event on the bus.
proof fn lemma_no_events_of_unknown(world: World, pid: usize)
    requires
        consistent(world),
        !world.executions.contains_key(pid),
    ensures
        events_of(world.bus, pid) == Seq::<MacroEventInnerView>::empty(),
{
    lemma_events_of_absent(world.bus, pid);
}

/// A bus without events of `pid` gives none.
proof fn lemma_events_of_absent(bus: Seq<MacroEventView>, pid: usize)
    requires
        forall|i: int| 0 <= i < bus.len() ==> (#[trigger] bus[i]).macro_pid.0 != pid,
    ensures
        events_of(bus, pid) == Seq::<MacroEventInnerView>::empty(),
    decreases bus.len(),
{
    if bus.len() > 0 {
        assert(bus.last() == bus[bus.len() - 1]);
        assert forall|i: int| 0 <= i < bus.drop_last().len() implies (#[trigger] bus.drop_last()[i]).macro_pid.0
            != pid by {
            assert(bus.drop_last()[i] == bus[i]);
        }
        lemma_events_of_absent(bus.drop_last(), pid);
    }
}

/// Without a wrap of the counter, the counter stands at the number of spawns.
proof fn lemma_reached_counts(steps: Seq<Step>)
    requires
        spawns_in(steps) <= usize::MAX,
    ensures
        consistent(reached(steps)),
        reached(steps).spawned == spawns_in(steps),
    decreases steps.len(),
{
    if steps.len() > 0 {
        lemma_reached_counts(steps.drop_last());
        lemma_step_keeps_consistency(reached(steps.drop_last()), steps.last());
    } else {
        assert(mirrored(Map::<usize, ExitStatusView>::empty(), Seq::<MacroEventView>::empty())
            == Map::<usize, ExitStatusView>::empty());
    }
}

/// The invariant holds after any steps that spawn no more executions than there are
/// identifiers.
pub proof fn lemma_reached_is_consistent(steps: Seq<Step>)
    requires
        spawns_in(steps) <= usize::MAX,
    ensures
        consistent(reached(steps)),
{
    lemma_reached_counts(steps);
}

/// Identifier uniqueness: each spawn hands out the count of the spawns before it, so
/// identifiers differ from one another and grow from spawn to spawn.
pub proof fn lemma_spawn_hands_out_fresh_pid(steps: Seq<Step>, instance: Option<Seq<char>>)
    requires
        spawns_in(steps) < usize::MAX,
    ensures
        reached(steps).next_pid == spawns_in(steps),
        !reached(steps).executions.contains_key(reached(steps).next_pid),
        after(reached(steps), Step::Spawn { instance }).executions.contains_key(
            reached(steps).next_pid,
        ),
        after(reached(steps), Step::Spawn { instance }).next_pid == reached(steps).next_pid + 1,
{
    lemma_reached_counts(steps);
}

/// Event ordering: every event on the bus belongs to a spawned execution; the events of
/// an execution whose worker came up begin with `Started`; and an execution has a
/// `Stopped` on the bus exactly when it has exited, as its last event and only once.
pub proof fn lemma_bus_order(world: World, pid: usize)
    requires
        consistent(world),
    ensures
        forall|i: int|
            0 <= i < world.bus.len() ==> (#[trigger] world.bus[i]).macro_pid.0 < world.next_pid,
        events_of(world.bus, pid).len() > 0 ==> world.executions.contains_key(pid),
        world.executions.contains_key(pid) && world.executions[pid].worker_came_up ==> events_of(
            world.bus,
            pid,
        ).len() > 0 && events_of(world.bus, pid).first() is Started,
        world.executions.contains_key(pid) ==> forall|k: int|
            0 <= k < events_of(world.bus, pid).len() ==> (#[trigger] events_of(world.bus, pid)[k] is Stopped
                <==> world.executions[pid].state == SupervisorState::Exited && k == events_of(
                world.bus,
                pid,
            ).len() - 1),
{
    if !world.executions.contains_key(pid) {
        lemma_no_events_of_unknown(world, pid);
    }
    assert forall|i: int| 0 <= i < world.bus.len() implies (#[trigger] world.bus[i]).macro_pid.0
        < world.next_pid by {
        assert(world.executions.contains_key(world.bus[i].macro_pid.0));
    }
}

/// What happens to one execution leaves the others alone: a signal to the supervisor of
/// `pid`, such as the engine's report of a termination, changes neither the counter nor
/// any other execution, whether spawned before or after.
pub proof fn lemma_signal_touches_one_execution(
    world: World,
    pid: usize,
    signal: SignalView,
    now: int,
    other: usize,
)
    requires
        other != pid,
    ensures
        after(world, Step::Signal { pid, signal, now }).next_pid == world.next_pid,
        after(world, Step::Signal { pid, signal, now }).executions.contains_key(other)
            == world.executions.contains_key(other),
        world.executions.contains_key(other) ==> after(
            world,
            Step::Signal { pid, signal, now },
        ).executions[other] == world.executions[other],
        events_of(after(world, Step::Signal { pid, signal, now }).bus, other) == events_of(
            world.bus,
            other,
        ),
{
    if world.executions.contains_key(pid) {
        match published_on(world.executions[pid].state, signal, now) {
            Some(inner) => {
                let event = MacroEventView {
                    macro_pid: MacroPID(pid),
                    macro_event_inner: inner,
                    instance_uuid: world.executions[pid].instance,
                };
                lemma_events_of_push(world.bus, event, other);
            },
            None => {},
        }
    }
}

/// Status agreement: the exit table holds for each execution the status of its first
/// `Stopped` event on the bus, and nothing for an execution without one.
pub proof fn lemma_exit_table_mirrors_bus(world: World, pid: MacroPID)
    requires
        consistent(world),
    ensures
        world.exits.get(pid.0) == first_stopped(world.bus, pid),
{
    lemma_mirrored_entry(Map::empty(), world.bus, pid);
}

} // verus!
