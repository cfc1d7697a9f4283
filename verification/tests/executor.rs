use lodestone_core::error::ErrorKind;
use lodestone_core::events::MacroEvent;
use lodestone_core::events::MacroEventInner;
use lodestone_core::executor::MacroExecutor;
use lodestone_core::executor::SpawnResult;
use lodestone_core::executor::StartObservation;
use lodestone_core::executor::STARTED_TIMEOUT_MILLIS;
use lodestone_core::pid::MacroPID;
use lodestone_core::status::ExitStatus;
use lodestone_core::supervisor::RunOutcome;
use lodestone_core::supervisor::Signal;
use lodestone_core::supervisor::Supervisor;
use lodestone_core::worker::bootstrap_script;
use lodestone_core::worker::install_host_ops;
use lodestone_core::worker::DefaultWorkerOptionGenerator;
use lodestone_core::worker::ModuleLoaderKind;
use lodestone_core::worker::OpGroup;
use lodestone_core::worker::Permissions;
use lodestone_core::worker::WorkerOptionGenerator;
use lodestone_core::worker::WorkerOptions;

fn event(pid: usize, inner: MacroEventInner) -> MacroEvent {
    MacroEvent { macro_pid: MacroPID(pid), macro_event_inner: inner, instance_uuid: None }
}

fn stopped(pid: usize, exit_status: ExitStatus) -> MacroEvent {
    event(pid, MacroEventInner::Stopped { exit_status })
}

fn spawn_plain(executor: &mut MacroExecutor) -> MacroPID {
    executor.spawn("main.ts".to_string(), Vec::new(), None, None).macro_pid
}

struct BasicMainWorkerGenerator;

impl WorkerOptionGenerator for BasicMainWorkerGenerator {
    fn generate(&self) -> WorkerOptions {
        WorkerOptions {
            module_loader: ModuleLoaderKind::Typescript,
            op_groups: vec![OpGroup::Custom(1)],
            classify_errors: false,
        }
    }
}

#[test]
fn spawned_pids_are_distinct_and_increasing() {
    let mut executor = MacroExecutor::new();
    let before = spawn_plain(&mut executor);
    let mut pids: Vec<MacroPID> = Vec::new();
    for _ in 0..50 {
        pids.push(spawn_plain(&mut executor));
    }
    for (i, pid) in pids.iter().enumerate() {
        assert_eq!(pid.0, i + 1);
        assert!(pid.0 > before.0);
        for other in &pids[i + 1..] {
            assert_ne!(pid, other);
        }
    }
}

#[test]
fn spawn_plans_the_execution() {
    let mut executor = MacroExecutor::new();
    let plan = executor.spawn(
        "macros/main.ts".to_string(),
        vec!["a".to_string(), "b".to_string()],
        None,
        Some("INSTANCE_1234".to_string()),
    );
    assert_eq!(plan.macro_pid, MacroPID(0));
    assert_eq!(plan.path_to_main_module, "macros/main.ts");
    assert_eq!(plan.args, vec!["a".to_string(), "b".to_string()]);
    assert_eq!(plan.permissions, Permissions::allow_all());
    assert_eq!(plan.instance_uuid.as_deref(), Some("INSTANCE_1234"));
    assert_eq!(
        plan.bootstrap_script,
        "const __macro_pid = 0; const __instance_uuid = \"INSTANCE_1234\";"
    );

    let mut restricted = Permissions::allow_all();
    restricted.net = false;
    let plan = executor.spawn("x.js".to_string(), Vec::new(), Some(restricted), None);
    assert_eq!(plan.macro_pid, MacroPID(1));
    assert_eq!(plan.permissions, restricted);
    assert!(!plan.permissions.net);
    assert_eq!(plan.instance_uuid, None);
    assert_eq!(plan.bootstrap_script, "const __macro_pid = 1; const __instance_uuid = \"null\";");
}

#[test]
fn bootstrap_globals_name_the_allocated_pid() {
    let mut executor = MacroExecutor::new();
    for _ in 0..12 {
        spawn_plain(&mut executor);
    }
    let plan = executor.spawn("main.ts".to_string(), vec!["12".to_string()], None, None);
    assert_eq!(plan.macro_pid, MacroPID(12));
    assert_eq!(plan.args[0], plan.macro_pid.0.to_string());
    assert!(plan.bootstrap_script.starts_with("const __macro_pid = 12;"));
    assert_eq!(
        bootstrap_script(MacroPID(4096), &Some("u".to_string())),
        "const __macro_pid = 4096; const __instance_uuid = \"u\";"
    );
    assert_eq!(Permissions::none().read, false);
}

#[test]
fn basic_execution() {
    let mut executor = MacroExecutor::new();
    let generator = BasicMainWorkerGenerator;
    let options = install_host_ops(generator.generate());
    assert_eq!(options.module_loader, ModuleLoaderKind::Typescript);
    assert!(options.classify_errors);
    assert_eq!(
        options.op_groups,
        vec![OpGroup::Custom(1), OpGroup::Prelude, OpGroup::Events, OpGroup::InstanceControl]
    );

    let plan = executor.spawn("test.ts".to_string(), Vec::new(), None, None);
    let pid = plan.macro_pid;
    let mut supervisor = Supervisor::new(pid, plan.instance_uuid);
    let mut bus: Vec<MacroEvent> = Vec::new();

    assert_eq!(executor.observe_start(&bus, pid, 10), None);
    executor.register_handle(pid);
    bus.extend(supervisor.handle_at(Signal::WorkerReady, 50));
    assert_eq!(executor.observe_start(&bus, pid, 10), Some(StartObservation::Started));
    let result = executor.spawn_result(pid, StartObservation::Started).unwrap();
    assert_eq!(result, SpawnResult { macro_pid: pid });

    bus.extend(
        supervisor.handle_at(Signal::MainModuleReturned { outcome: RunOutcome::Completed }, 51),
    );
    assert!(executor.wait_with_timeout(&bus, pid).is_none());
    bus.extend(
        supervisor.handle_at(Signal::EventLoopReturned { outcome: RunOutcome::Completed }, 52),
    );
    bus.extend(supervisor.handle_at(Signal::ThreadEnded, 53));
    assert_eq!(bus.len(), 2);

    let seen = executor.wait_with_timeout(&bus, pid).expect("exited");
    assert!(matches!(seen, ExitStatus::Success { time: 52 }));
    executor.observe_all(&bus);
    assert!(matches!(executor.get_macro_status(pid), Some(ExitStatus::Success { time: 52 })));
}

#[test]
fn the_handle_is_on_record_once_the_start_is_announced() {
    let mut executor = MacroExecutor::new();
    let plan = executor.spawn("main.ts".to_string(), Vec::new(), None, Some("i".to_string()));
    let mut supervisor = plan.supervisor();
    assert_eq!(supervisor.macro_pid(), plan.macro_pid);
    assert!(executor.abort_macro(plan.macro_pid).is_err());
    let started = executor.announce_start(&mut supervisor, 3).expect("started");
    assert!(matches!(started.macro_event_inner, MacroEventInner::Started));
    assert_eq!(started.macro_pid, plan.macro_pid);
    assert_eq!(started.instance_uuid.as_deref(), Some("i"));
    assert!(executor.abort_macro(plan.macro_pid).is_ok());
    assert!(executor.announce_start(&mut supervisor, 4).is_none());

    let late = executor.spawn("main.ts".to_string(), Vec::new(), None, None);
    let mut ended = late.supervisor();
    ended.handle_at(Signal::ThreadEnded, 5);
    assert!(executor.announce_start(&mut ended, 6).is_none());
    assert!(executor.abort_macro(late.macro_pid).is_err());
}

#[test]
fn default_generator_brings_the_typescript_loader_only() {
    let options = DefaultWorkerOptionGenerator.generate();
    assert_eq!(options.module_loader, ModuleLoaderKind::Typescript);
    assert!(options.op_groups.is_empty());
    assert!(!options.classify_errors);
    let installed = install_host_ops(options);
    assert_eq!(
        installed.op_groups,
        vec![OpGroup::Prelude, OpGroup::Events, OpGroup::InstanceControl]
    );
}

#[test]
fn spawn_succeeds_only_when_started_was_observed() {
    let executor = MacroExecutor::new();
    let timed_out = executor.spawn_result(MacroPID(3), StartObservation::TimedOut).unwrap_err();
    assert_eq!(timed_out.kind, ErrorKind::Internal);
    assert_eq!(timed_out.to_string(), "Failed to spawn macro");
    let closed = executor.spawn_result(MacroPID(3), StartObservation::BusClosed).unwrap_err();
    assert_eq!(closed.kind, ErrorKind::Internal);
    assert_eq!(closed.source, "Failed to receive macro started event");
    assert_eq!(
        executor.spawn_result(MacroPID(3), StartObservation::Started).unwrap(),
        SpawnResult { macro_pid: MacroPID(3) }
    );
}

#[test]
fn the_wait_for_started_times_out_after_one_second() {
    let executor = MacroExecutor::new();
    assert_eq!(STARTED_TIMEOUT_MILLIS, 1000);
    let other = vec![
        event(1, MacroEventInner::Started),
        event(2, MacroEventInner::Detach),
        stopped(2, ExitStatus::Killed { time: 1 }),
    ];
    assert_eq!(executor.observe_start(&other, MacroPID(2), 0), None);
    assert_eq!(executor.observe_start(&other, MacroPID(2), 999), None);
    assert_eq!(
        executor.observe_start(&other, MacroPID(2), 1000),
        Some(StartObservation::TimedOut)
    );
    assert_eq!(
        executor.observe_start(&other, MacroPID(1), 5000),
        Some(StartObservation::Started)
    );
    assert_eq!(executor.observe_start(&Vec::new(), MacroPID(1), 1), None);
}

#[test]
fn abort_needs_a_handle_on_record() {
    let mut executor = MacroExecutor::new();
    let pid = spawn_plain(&mut executor);
    let missing = executor.abort_macro(pid).unwrap_err();
    assert_eq!(missing.kind, ErrorKind::NotFound);
    assert_eq!(missing.to_string(), "Macro with pid MacroPID(0) not found");
    executor.register_handle(pid);
    assert!(executor.abort_macro(pid).is_ok());
    assert!(executor.abort_macro(pid).is_ok());
    assert_eq!(
        executor.abort_macro(MacroPID(77)).unwrap_err().source,
        "Macro with pid MacroPID(77) not found"
    );
}

#[test]
fn abort_of_an_exited_pid_leaves_later_pids_alone() {
    let mut executor = MacroExecutor::new();
    let first = spawn_plain(&mut executor);
    executor.register_handle(first);
    executor.observe(&stopped(first.0, ExitStatus::Success { time: 1 }));
    assert!(executor.abort_macro(first).is_ok());
    let second = spawn_plain(&mut executor);
    assert_ne!(first, second);
    assert_eq!(second, MacroPID(1));
    assert!(executor.get_macro_status(second).is_none());
    assert_eq!(executor.abort_macro(second).unwrap_err().kind, ErrorKind::NotFound);
}

#[test]
fn abort_then_killed_is_what_the_waiter_sees() {
    let mut executor = MacroExecutor::new();
    let plan = executor.spawn("main.ts".to_string(), Vec::new(), None, None);
    let pid = plan.macro_pid;
    let mut supervisor = Supervisor::new(pid, None);
    let mut bus: Vec<MacroEvent> = Vec::new();
    executor.register_handle(pid);
    bus.extend(supervisor.handle_at(Signal::WorkerReady, 1));
    assert!(executor.abort_macro(pid).is_ok());
    bus.extend(supervisor.handle_at(
        Signal::MainModuleReturned {
            outcome: RunOutcome::Failed {
                message: "Uncaught Error: execution terminated".to_string(),
            },
        },
        2,
    ));
    assert!(matches!(
        executor.wait_with_timeout(&bus, pid),
        Some(ExitStatus::Killed { time: 2 })
    ));
}

#[test]
fn status_agrees_with_what_the_waiter_saw() {
    let mut executor = MacroExecutor::new();
    let bus = vec![
        event(0, MacroEventInner::Started),
        event(1, MacroEventInner::Started),
        stopped(1, ExitStatus::Error { error_msg: "boom".to_string(), time: 7 }),
        stopped(0, ExitStatus::Killed { time: 8 }),
        stopped(1, ExitStatus::Success { time: 9 }),
    ];
    let seen = executor.wait_with_timeout(&bus, MacroPID(1)).expect("exited");
    executor.observe_all(&bus);
    match (seen, executor.get_macro_status(MacroPID(1)).expect("recorded")) {
        (
            ExitStatus::Error { error_msg: a, time: 7 },
            ExitStatus::Error { error_msg: b, time: 7 },
        ) => {
            assert_eq!(a, "boom");
            assert_eq!(b, "boom");
        }
        other => panic!("unexpected statuses {:?}", other),
    }
    assert!(matches!(
        executor.get_macro_status(MacroPID(0)),
        Some(ExitStatus::Killed { time: 8 })
    ));
    assert!(executor.get_macro_status(MacroPID(2)).is_none());
}

#[test]
fn the_first_recorded_status_stays() {
    let mut executor = MacroExecutor::new();
    executor.observe(&event(5, MacroEventInner::Started));
    assert!(executor.get_macro_status(MacroPID(5)).is_none());
    executor.observe(&stopped(5, ExitStatus::Success { time: 1 }));
    executor.observe(&stopped(
        5,
        ExitStatus::Error {
            error_msg: "Macro executor thread unexpectedly panicked".to_string(),
            time: 2,
        },
    ));
    assert!(matches!(
        executor.get_macro_status(MacroPID(5)),
        Some(ExitStatus::Success { time: 1 })
    ));
}

#[test]
fn repeated_status_queries_agree() {
    let mut executor = MacroExecutor::new();
    executor.observe(&stopped(2, ExitStatus::Killed { time: 44 }));
    for _ in 0..3 {
        assert!(matches!(
            executor.get_macro_status(MacroPID(2)),
            Some(ExitStatus::Killed { time: 44 })
        ));
        assert!(executor.get_macro_status(MacroPID(3)).is_none());
    }
}

#[test]
fn the_waiter_for_detach_is_released_by_its_own_detach_only() {
    let executor = MacroExecutor::new();
    let bus = vec![
        event(0, MacroEventInner::Started),
        event(1, MacroEventInner::Detach),
        stopped(0, ExitStatus::Success { time: 1 }),
    ];
    assert!(executor.wait_for_detach(&bus, MacroPID(1)));
    assert!(!executor.wait_for_detach(&bus, MacroPID(0)));
    assert!(!executor.wait_for_detach(&Vec::new(), MacroPID(1)));
}

#[test]
fn events_tell_their_own_pid_from_others() {
    let stop = stopped(3, ExitStatus::Killed { time: 6 });
    assert!(matches!(stop.exit_status_for(MacroPID(3)), Some(ExitStatus::Killed { time: 6 })));
    assert!(stop.exit_status_for(MacroPID(4)).is_none());
    assert!(!stop.announces_start_of(MacroPID(3)));
    let start = event(3, MacroEventInner::Started);
    assert!(start.announces_start_of(MacroPID(3)));
    assert!(!start.announces_start_of(MacroPID(2)));
    assert!(start.exit_status_for(MacroPID(3)).is_none());
    let detach = event(3, MacroEventInner::Detach);
    assert!(detach.signals_detach_of(MacroPID(3)));
    assert!(!detach.signals_detach_of(MacroPID(1)));
    assert!(!start.signals_detach_of(MacroPID(3)));
}
