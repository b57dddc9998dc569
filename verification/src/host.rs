//! The module host: the load / reload / restart lifecycle.
//!
//! The host records the module's source path, drives the engine's compile
//! and instantiate steps through its runtime shell, and applies the outcome:
//! the compiled-module reference and the instance handle are updated, the
//! telemetry is reset to a clean slate, the timer's variable mapping is
//! cleared (a fresh load clears the whole session), and exactly one log
//! entry reports success or the first failure.
use vstd::prelude::*;

use vstd::multiset::Multiset;

use crate::settings::SettingsMap;
use crate::telemetry::TickStats;
use crate::telemetry::hist_values;
use crate::timer::DebuggerTimerState;
use crate::timer::GameTimeState;
use crate::timer::LogEntry;
use crate::timer::LogKind;
use crate::timer::LogLevel;
use crate::timer::TimeSpan;
use crate::timer::TimerPhase;
use crate::timer::logs_appended;

verus! {

/// A lifecycle request: a fresh load from a source path, a recompilation of
/// the recorded path, or a re-instantiation of the already-compiled module.
pub enum LoadRequest {
    Fresh(String),
    Reload,
    Restart,
}

/// How one engine step (a compile or an instantiate) ended; a failure
/// carries the engine's description of it.
pub enum EngineOutcome {
    NotAttempted,
    Succeeded,
    Failed(String),
}

/// Whether a compiled module is at hand after the compile step: a compile
/// replaces the stored reference on success and clears it on failure, and a
/// skipped compile keeps what was there.
pub open spec fn module_after_compile(outcome: EngineOutcome, had_module: bool) -> bool {
    match outcome {
        EngineOutcome::NotAttempted => had_module,
        EngineOutcome::Succeeded => true,
        EngineOutcome::Failed(_) => false,
    }
}

/// The success log line of each request kind.
pub open spec fn success_message(request: LoadRequest) -> Seq<char> {
    match request {
        LoadRequest::Fresh(_) => "Auto splitter loaded."@,
        LoadRequest::Reload => "Auto splitter reloaded."@,
        LoadRequest::Restart => "Auto splitter restarted."@,
    }
}

/// The host's own lifecycle state: the recorded paths and whether a
/// compiled module and a running instance exist.
pub struct ModuleHost {
    /// The module's source path, recorded by a fresh load.
    pub path: Option<String>,
    /// The optional auxiliary script path.
    pub script_path: Option<String>,
    /// Whether a compiled module is stored.
    pub module_compiled: bool,
    /// Whether a running instance is published.
    pub instance_present: bool,
}

impl ModuleHost {
    pub fn new() -> (r: Self)
        ensures
            r.path is None,
            r.script_path is None,
            !r.module_compiled,
            !r.instance_present,
    {
        ModuleHost { path: None, script_path: None, module_compiled: false, instance_present: false }
    }

    /// Record a fresh request's source path, and name the path the runtime
    /// shell must read and compile: the recorded path for a fresh load or a
    /// reload, nothing for a restart.
    pub fn begin_load(&mut self, request: &LoadRequest) -> (compile_path: Option<String>)
        ensures
            final(self).script_path == old(self).script_path,
            final(self).module_compiled == old(self).module_compiled,
            final(self).instance_present == old(self).instance_present,
            request matches LoadRequest::Fresh(p) ==> final(self).path == Some(*p),
            !(request matches LoadRequest::Fresh(_)) ==> final(self).path == old(self).path,
            request matches LoadRequest::Restart ==> compile_path is None,
            !(request matches LoadRequest::Restart) ==> compile_path == final(self).path,
    {
        if let LoadRequest::Fresh(p) = request {
            self.path = Some(p.clone());
        }
        match request {
            LoadRequest::Restart => None,
            _ => match &self.path {
                Some(p) => Some(p.clone()),
                None => None,
            },
        }
    }

    /// Apply the outcome of one load-family operation.
    ///
    /// Whatever happened, the telemetry is reset to a clean slate and the
    /// variable mapping is cleared; a fresh load clears the whole timer
    /// session including the log history. The compiled-module reference
    /// follows the compile step, the instance handle is present exactly when
    /// instantiation succeeded, and one log entry is appended: the first
    /// failure's description as an error, or the request's success line.
    pub fn finish_load(
        &mut self,
        request: &LoadRequest,
        compile: EngineOutcome,
        instantiate: EngineOutcome,
        timer: &mut DebuggerTimerState,
        stats: &mut TickStats,
    )
        requires
            old(timer).wf(),
            compile is NotAttempted == (request matches LoadRequest::Restart || old(
                self,
            ).path is None),
            instantiate is NotAttempted == !module_after_compile(
                compile,
                old(self).module_compiled,
            ),
        ensures
            final(self).path == old(self).path,
            final(self).script_path == old(self).script_path,
            final(self).module_compiled == module_after_compile(
                compile,
                old(self).module_compiled,
            ),
            final(self).instance_present == instantiate is Succeeded,
            final(stats).tick_rate_nanos == 0,
            final(stats).slowest_tick_nanos == 0,
            final(stats).avg_tick_nanos == 0,
            final(stats).memory_usage == 0,
            final(stats).handles == 0,
            hist_values(final(stats).tick_times) == Multiset::<u64>::empty(),
            final(stats).processes@ == Seq::<crate::telemetry::ProcessEntry>::empty(),
            final(timer).wf(),
            final(timer).variables@ == Seq::<(String, String)>::empty(),
            final(timer).utc_offset_seconds == old(timer).utc_offset_seconds,
            request matches LoadRequest::Fresh(_) ==> final(timer).phase == TimerPhase::NotRunning
                && final(timer).split_index == 0 && final(timer).game_time == (TimeSpan {
                seconds: 0,
                nanos: 0,
            }) && final(timer).game_time_state == GameTimeState::NotInitialized,
            !(request matches LoadRequest::Fresh(_)) ==> final(timer).phase == old(timer).phase
                && final(timer).split_index == old(timer).split_index && final(timer).game_time
                == old(timer).game_time && final(timer).game_time_state == old(
                timer,
            ).game_time_state,
            ({
                let base = if request matches LoadRequest::Fresh(_) {
                    Seq::<LogEntry>::empty()
                } else {
                    old(timer).logs@
                };
                match compile {
                    EngineOutcome::Failed(m) => logs_appended(
                        base,
                        final(timer).logs@,
                        m@,
                        LogKind::Runtime(LogLevel::Error),
                    ),
                    _ => match instantiate {
                        EngineOutcome::Failed(m) => logs_appended(
                            base,
                            final(timer).logs@,
                            m@,
                            LogKind::Runtime(LogLevel::Error),
                        ),
                        _ => logs_appended(
                            base,
                            final(timer).logs@,
                            success_message(*request),
                            LogKind::Runtime(LogLevel::Info),
                        ),
                    },
                }
            }),
    {
        match request {
            LoadRequest::Fresh(_) => timer.clear(),
            _ => timer.clear_variables(),
        }
        match &compile {
            EngineOutcome::Succeeded => {
                self.module_compiled = true;
            },
            EngineOutcome::Failed(_) => {
                self.module_compiled = false;
            },
            EngineOutcome::NotAttempted => {},
        }
        match &instantiate {
            EngineOutcome::Succeeded => {
                self.instance_present = true;
            },
            _ => {
                self.instance_present = false;
            },
        }
        stats.reset();
        match compile {
            EngineOutcome::Failed(message) => {
                timer.log_runtime(message, LogLevel::Error);
            },
            _ => {
                match instantiate {
                    EngineOutcome::Failed(message) => {
                        timer.log_runtime(message, LogLevel::Error);
                    },
                    _ => {
                        let message = match request {
                            LoadRequest::Fresh(_) => "Auto splitter loaded.",
                            LoadRequest::Reload => "Auto splitter reloaded.",
                            LoadRequest::Restart => "Auto splitter restarted.",
                        };
                        timer.log_runtime(message.to_owned(), LogLevel::Info);
                    },
                }
            },
        }
    }

    /// Record a new auxiliary script path and log whether it replaced
    /// itself (a reload) or arrived fresh. The caller follows up with a
    /// restart of the module.
    pub fn set_script_path(&mut self, file: String, timer: &mut DebuggerTimerState)
        ensures
            final(self).script_path matches Some(p) && p@ == file@,
            final(self).path == old(self).path,
            final(self).module_compiled == old(self).module_compiled,
            final(self).instance_present == old(self).instance_present,
            DebuggerTimerState::same_except_logs(*old(timer), *final(timer)),
            final(timer).wf() == old(timer).wf(),
            ({
                let message = if old(self).script_path matches Some(p) && p@ == file@ {
                    "Script reloaded."@
                } else {
                    "Script loaded."@
                };
                logs_appended(
                    old(timer).logs@,
                    final(timer).logs@,
                    message,
                    LogKind::Runtime(LogLevel::Info),
                )
            }),
    {
        let is_reload = match &self.script_path {
            Some(p) => *p == file,
            None => false,
        };
        self.script_path = Some(file);
        let message = if is_reload {
            "Script reloaded."
        } else {
            "Script loaded."
        };
        timer.log_runtime(message.to_owned(), LogLevel::Info);
    }
}

/// Which settings snapshot a new instance starts from: a fresh load starts
/// clean, a reload or restart carries the active instance's snapshot, read
/// before the old instance is retired.
pub fn carried_settings(request: &LoadRequest, current: Option<SettingsMap>) -> (r: Option<
    SettingsMap,
>)
    ensures
        request matches LoadRequest::Fresh(_) ==> r is None,
        !(request matches LoadRequest::Fresh(_)) ==> r == current,
{
    match request {
        LoadRequest::Fresh(_) => None,
        _ => current,
    }
}

} // verus!
