use asr_debugger::host::EngineOutcome;
use asr_debugger::host::LoadRequest;
use asr_debugger::host::ModuleHost;
use asr_debugger::host::carried_settings;
use asr_debugger::settings::SettingsMap;
use asr_debugger::settings::SettingsValue;
use asr_debugger::telemetry::TickStats;
use asr_debugger::timer::DebuggerTimerState;
use asr_debugger::timer::LogKind;
use asr_debugger::timer::LogLevel;
use asr_debugger::timer::TimerPhase;

#[test]
fn a_failed_fresh_load_leaves_no_module_and_one_error_entry() {
    let mut host = ModuleHost::new();
    let mut timer = DebuggerTimerState::new(0);
    let mut stats = TickStats::new();
    timer.log_auto_splitter(String::from("stale entry"));
    stats.record_tick(9_000, 100, 1, 2, Vec::new());

    let request = LoadRequest::Fresh(String::from("splitter.wasm"));
    let compile_path = host.begin_load(&request);
    assert_eq!(compile_path.as_deref(), Some("splitter.wasm"));

    host.finish_load(
        &request,
        EngineOutcome::Failed(String::from("Failed loading the auto splitter.")),
        EngineOutcome::NotAttempted,
        &mut timer,
        &mut stats,
    );

    assert!(!host.module_compiled);
    assert!(!host.instance_present);
    assert_eq!(timer.logs.len(), 1);
    assert_eq!(&*timer.logs[0].message, "Failed loading the auto splitter.");
    assert!(matches!(timer.logs[0].kind, LogKind::Runtime(LogLevel::Error)));
    assert_eq!(stats.slowest_tick_nanos, 0);
    assert_eq!(stats.tick_times.len(), 0);
    assert!(stats.processes.is_empty());
}

#[test]
fn a_successful_fresh_load_publishes_the_instance_and_logs_success() {
    let mut host = ModuleHost::new();
    let mut timer = DebuggerTimerState::new(0);
    let mut stats = TickStats::new();
    timer.start();
    timer.split();

    let request = LoadRequest::Fresh(String::from("splitter.wasm"));
    host.begin_load(&request);
    host.finish_load(
        &request,
        EngineOutcome::Succeeded,
        EngineOutcome::Succeeded,
        &mut timer,
        &mut stats,
    );

    assert!(host.module_compiled);
    assert!(host.instance_present);
    assert_eq!(host.path.as_deref(), Some("splitter.wasm"));
    // The fresh load cleared the whole session before logging.
    assert!(matches!(timer.phase, TimerPhase::NotRunning));
    assert_eq!(timer.split_index, 0);
    assert_eq!(timer.logs.len(), 1);
    assert_eq!(&*timer.logs[0].message, "Auto splitter loaded.");
    assert!(matches!(timer.logs[0].kind, LogKind::Runtime(LogLevel::Info)));
}

#[test]
fn a_reload_keeps_the_run_but_clears_the_variables() {
    let mut host = ModuleHost::new();
    let mut timer = DebuggerTimerState::new(0);
    let mut stats = TickStats::new();
    let fresh = LoadRequest::Fresh(String::from("splitter.wasm"));
    host.begin_load(&fresh);
    host.finish_load(
        &fresh,
        EngineOutcome::Succeeded,
        EngineOutcome::Succeeded,
        &mut timer,
        &mut stats,
    );

    timer.start();
    timer.split();
    let key = String::from("area");
    let value = String::from("cave");
    timer.set_variable(&key, &value);

    let reload = LoadRequest::Reload;
    let compile_path = host.begin_load(&reload);
    assert_eq!(compile_path.as_deref(), Some("splitter.wasm"));
    host.finish_load(
        &reload,
        EngineOutcome::Succeeded,
        EngineOutcome::Succeeded,
        &mut timer,
        &mut stats,
    );

    assert!(matches!(timer.phase, TimerPhase::Running));
    assert_eq!(timer.split_index, 1);
    assert!(timer.variables.is_empty());
    assert_eq!(&*timer.logs.last().unwrap().message, "Auto splitter reloaded.");
}

#[test]
fn a_restart_skips_the_compile_step() {
    let mut host = ModuleHost::new();
    let mut timer = DebuggerTimerState::new(0);
    let mut stats = TickStats::new();
    let fresh = LoadRequest::Fresh(String::from("splitter.wasm"));
    host.begin_load(&fresh);
    host.finish_load(
        &fresh,
        EngineOutcome::Succeeded,
        EngineOutcome::Succeeded,
        &mut timer,
        &mut stats,
    );

    let restart = LoadRequest::Restart;
    let compile_path = host.begin_load(&restart);
    assert!(compile_path.is_none());
    host.finish_load(
        &restart,
        EngineOutcome::NotAttempted,
        EngineOutcome::Succeeded,
        &mut timer,
        &mut stats,
    );
    assert!(host.module_compiled);
    assert!(host.instance_present);
    assert_eq!(&*timer.logs.last().unwrap().message, "Auto splitter restarted.");
}

#[test]
fn an_instantiate_failure_retires_the_instance_but_keeps_the_module() {
    let mut host = ModuleHost::new();
    let mut timer = DebuggerTimerState::new(0);
    let mut stats = TickStats::new();
    let fresh = LoadRequest::Fresh(String::from("splitter.wasm"));
    host.begin_load(&fresh);
    host.finish_load(
        &fresh,
        EngineOutcome::Succeeded,
        EngineOutcome::Failed(String::from("Failed starting the auto splitter.")),
        &mut timer,
        &mut stats,
    );
    assert!(host.module_compiled);
    assert!(!host.instance_present);
    assert_eq!(timer.logs.len(), 1);
    assert_eq!(&*timer.logs[0].message, "Failed starting the auto splitter.");
    assert!(matches!(timer.logs[0].kind, LogKind::Runtime(LogLevel::Error)));
}

#[test]
fn script_paths_log_loaded_then_reloaded() {
    let mut host = ModuleHost::new();
    let mut timer = DebuggerTimerState::new(0);
    host.set_script_path(String::from("main.lua"), &mut timer);
    assert_eq!(&*timer.logs.last().unwrap().message, "Script loaded.");
    host.set_script_path(String::from("main.lua"), &mut timer);
    assert_eq!(&*timer.logs.last().unwrap().message, "Script reloaded.");
    host.set_script_path(String::from("other.lua"), &mut timer);
    assert_eq!(&*timer.logs.last().unwrap().message, "Script loaded.");
    assert_eq!(host.script_path.as_deref(), Some("other.lua"));
}

#[test]
fn only_reload_and_restart_carry_the_settings_snapshot() {
    let mut snapshot = SettingsMap::new();
    snapshot.insert(String::from("k"), SettingsValue::Bool(true));
    let carried = carried_settings(&LoadRequest::Reload, Some(snapshot));
    let carried = match carried {
        Some(m) => m,
        None => panic!("reload dropped the snapshot"),
    };
    assert!(carried.get(&String::from("k")).is_some());

    let dropped = carried_settings(&LoadRequest::Fresh(String::from("x.wasm")), Some(carried));
    assert!(dropped.is_none());

    assert!(carried_settings(&LoadRequest::Restart, None).is_none());
}

#[test]
fn a_reload_with_no_recorded_path_skips_both_engine_steps() {
    let mut host = ModuleHost::new();
    let mut timer = DebuggerTimerState::new(0);
    let mut stats = TickStats::new();
    let reload = LoadRequest::Reload;
    let compile_path = host.begin_load(&reload);
    assert!(compile_path.is_none());
    host.finish_load(
        &reload,
        EngineOutcome::NotAttempted,
        EngineOutcome::NotAttempted,
        &mut timer,
        &mut stats,
    );
    assert!(!host.module_compiled);
    assert!(!host.instance_present);
    assert_eq!(&*timer.logs.last().unwrap().message, "Auto splitter reloaded.");
}
