//! The timer state machine driven by the module and by control actions.
//!
//! The state carries the phase of the run, the split index, the game time,
//! an ordered variable mapping, and the append-only session log.
use vstd::prelude::*;

use crate::clock::ClockTime;
use crate::clock::local_clock_time;

verus! {

/// Phase of the game timer.
///
/// `Ended` is reached only through signaling outside the operations modeled
/// here; it matters as a source state for `undo_split`.
#[derive(Clone, Copy, PartialEq, Eq, Structural, Debug)]
pub enum TimerPhase {
    NotRunning,
    Running,
    Paused,
    Ended,
}

/// Phase of the game-time clock inside a run.
#[derive(Clone, Copy, PartialEq, Eq, Structural, Debug)]
pub enum GameTimeState {
    NotInitialized,
    Paused,
    Running,
}

impl GameTimeState {
    pub fn to_str(self) -> (r: &'static str)
        ensures
            self == GameTimeState::NotInitialized ==> r@ == "Not initialized"@,
            self == GameTimeState::Paused ==> r@ == "Paused"@,
            self == GameTimeState::Running ==> r@ == "Running"@,
    {
        match self {
            GameTimeState::NotInitialized => "Not initialized",
            GameTimeState::Paused => "Paused",
            GameTimeState::Running => "Running",
        }
    }
}

impl Default for GameTimeState {
    fn default() -> (r: Self)
        ensures
            r == GameTimeState::NotInitialized,
    {
        GameTimeState::NotInitialized
    }
}

pub fn timer_phase_to_str(phase: TimerPhase) -> (r: &'static str)
    ensures
        phase == TimerPhase::NotRunning ==> r@ == "Not running"@,
        phase == TimerPhase::Running ==> r@ == "Running"@,
        phase == TimerPhase::Paused ==> r@ == "Paused"@,
        phase == TimerPhase::Ended ==> r@ == "Ended"@,
{
    match phase {
        TimerPhase::NotRunning => "Not running",
        TimerPhase::Running => "Running",
        TimerPhase::Paused => "Paused",
        TimerPhase::Ended => "Ended",
    }
}

/// A signed span of game time: whole seconds plus a sub-second nanosecond
/// part that carries the same sign as the seconds.
#[derive(Clone, Copy, PartialEq, Eq, Structural, Debug)]
pub struct TimeSpan {
    pub seconds: i64,
    pub nanos: i32,
}

impl TimeSpan {
    pub open spec fn wf(self) -> bool {
        &&& -999_999_999 <= self.nanos <= 999_999_999
        &&& self.seconds > 0 ==> self.nanos >= 0
        &&& self.seconds < 0 ==> self.nanos <= 0
    }

    pub fn zero() -> (r: Self)
        ensures
            r == (TimeSpan { seconds: 0, nanos: 0 }),
            r.wf(),
    {
        TimeSpan { seconds: 0, nanos: 0 }
    }
}

pub const SECONDS_PER_MINUTE: u64 = 60;

pub const SECONDS_PER_HOUR: u64 = 60 * SECONDS_PER_MINUTE;

/// The parts of a span as a display shows them: sign, whole hours, then
/// minutes, seconds, and nanoseconds below an hour.
#[derive(Clone, Copy, PartialEq, Eq, Structural, Debug)]
pub struct TimeParts {
    pub negative: bool,
    pub hours: u64,
    pub minutes: u8,
    pub seconds: u8,
    pub nanos: u32,
}

impl TimeSpan {
    /// Split the span into display parts: the magnitude's hours, minutes,
    /// seconds and nanoseconds, with one leading sign.
    pub fn display_parts(self) -> (r: TimeParts)
        requires
            self.wf(),
            self.seconds > i64::MIN,
        ensures
            ({
                let abs_seconds: int = if self.seconds < 0 {
                    -(self.seconds as int)
                } else {
                    self.seconds as int
                };
                &&& r.negative == (self.seconds < 0 || self.nanos < 0)
                &&& r.nanos == (if self.nanos < 0 {
                    -(self.nanos as int)
                } else {
                    self.nanos as int
                })
                &&& r.seconds == abs_seconds % 60
                &&& r.minutes == (abs_seconds % 3600) / 60
                &&& r.hours == abs_seconds / 3600
            }),
    {
        let negative = self.seconds < 0 || self.nanos < 0;
        let abs_secs: u64 = if self.seconds < 0 {
            (-self.seconds) as u64
        } else {
            self.seconds as u64
        };
        let abs_nanos: u32 = if self.nanos < 0 {
            (-self.nanos) as u32
        } else {
            self.nanos as u32
        };
        let seconds = (abs_secs % SECONDS_PER_MINUTE) as u8;
        let minutes = ((abs_secs % SECONDS_PER_HOUR) / SECONDS_PER_MINUTE) as u8;
        let hours = abs_secs / SECONDS_PER_HOUR;
        TimeParts { negative, hours, minutes, seconds, nanos: abs_nanos }
    }
}

/// Severity of a runtime-originated log entry.
#[derive(Clone, Copy, PartialEq, Eq, Structural, Debug)]
pub enum LogLevel {
    Trace,
    Debug,
    Info,
    Warning,
    Error,
}

/// Classification of a log entry: emitted by the host runtime with a
/// severity, or a plain message from the module itself.
#[derive(Clone, Copy, PartialEq, Eq, Structural, Debug)]
pub enum LogKind {
    Runtime(LogLevel),
    Module,
}

/// One append-only log entry.
#[derive(Debug)]
pub struct LogEntry {
    pub time: ClockTime,
    pub message: String,
    pub kind: LogKind,
}

/// True when `new_logs` is `old_logs` with exactly one entry appended,
/// carrying the given message text and kind, stamped with some valid
/// wall-clock time.
pub open spec fn logs_appended(
    old_logs: Seq<LogEntry>,
    new_logs: Seq<LogEntry>,
    message: Seq<char>,
    kind: LogKind,
) -> bool {
    &&& new_logs.len() == old_logs.len() + 1
    &&& new_logs.subrange(0, old_logs.len() as int) =~= old_logs
    &&& new_logs.last().time.wf()
    &&& new_logs.last().message@ == message
    &&& new_logs.last().kind == kind
}

/// True when some variable in `vars` has the key `key`.
pub open spec fn var_has_key(vars: Seq<(String, String)>, key: Seq<char>) -> bool {
    exists|i: int| 0 <= i < vars.len() && vars[i].0@ == key
}

/// The index of the variable with key `key`; meaningful only when the keys
/// are unique and `var_has_key` holds.
pub open spec fn var_key_index(vars: Seq<(String, String)>, key: Seq<char>) -> int {
    choose|i: int| 0 <= i < vars.len() && vars[i].0@ == key
}

/// The phase after a `start` request: only `NotRunning` moves, to `Running`.
pub open spec fn start_phase(phase: TimerPhase) -> TimerPhase {
    if phase == TimerPhase::NotRunning {
        TimerPhase::Running
    } else {
        phase
    }
}

/// The split index after a `split` or `skip_split` request.
pub open spec fn split_index_after(phase: TimerPhase, index: nat) -> nat {
    if phase == TimerPhase::Running {
        index + 1
    } else {
        index
    }
}

/// The split index after the decrement of an `undo_split`: one less,
/// saturating at zero.
pub open spec fn undo_split_index(index: nat) -> nat {
    if index > 0 {
        (index - 1) as nat
    } else {
        0
    }
}

/// The full state of the debugged timer, including its session log.
pub struct DebuggerTimerState {
    pub phase: TimerPhase,
    pub game_time: TimeSpan,
    pub game_time_state: GameTimeState,
    pub split_index: usize,
    pub variables: Vec<(String, String)>,
    pub logs: Vec<LogEntry>,
    /// The local offset east of UTC, in seconds, used to stamp log entries.
    pub utc_offset_seconds: i32,
}

impl DebuggerTimerState {
    /// Well-formed: the game time is a valid span and variable keys are
    /// unique, so that insertion order and overwrite-in-place are meaningful.
    pub open spec fn wf(self) -> bool {
        &&& self.game_time.wf()
        &&& forall|i: int, j: int|
            0 <= i < j < self.variables@.len() ==> self.variables@[i].0@ != self.variables@[j].0@
    }

    /// True when everything but the log is untouched between two states.
    pub open spec fn same_except_logs(pre: Self, post: Self) -> bool {
        &&& post.phase == pre.phase
        &&& post.game_time == pre.game_time
        &&& post.game_time_state == pre.game_time_state
        &&& post.split_index == pre.split_index
        &&& post.variables@ == pre.variables@
        &&& post.utc_offset_seconds == pre.utc_offset_seconds
    }

    pub fn new(utc_offset_seconds: i32) -> (r: Self)
        ensures
            r.wf(),
            r.phase == TimerPhase::NotRunning,
            r.game_time == (TimeSpan { seconds: 0, nanos: 0 }),
            r.game_time_state == GameTimeState::NotInitialized,
            r.split_index == 0,
            r.variables@ == Seq::<(String, String)>::empty(),
            r.logs@ == Seq::<LogEntry>::empty(),
            r.utc_offset_seconds == utc_offset_seconds,
    {
        DebuggerTimerState {
            phase: TimerPhase::NotRunning,
            game_time: TimeSpan::zero(),
            game_time_state: GameTimeState::NotInitialized,
            split_index: 0,
            variables: Vec::new(),
            logs: Vec::new(),
            utc_offset_seconds,
        }
    }

    /// Append one entry to the session log, stamped with the current local
    /// wall-clock time; nothing else changes.
    pub fn log(&mut self, message: String, kind: LogKind)
        ensures
            logs_appended(old(self).logs@, final(self).logs@, message@, kind),
            Self::same_except_logs(*old(self), *final(self)),
            final(self).wf() == old(self).wf(),
    {
        let now = local_clock_time(self.utc_offset_seconds);
        self.logs.push(LogEntry { time: now, message, kind });
    }

    /// Start the run: a transition to `Running` exactly when the timer is
    /// not yet running, and a no-op from every other phase.
    pub fn start(&mut self)
        requires
            old(self).wf(),
        ensures
            final(self).wf(),
            final(self).phase == start_phase(old(self).phase),
            final(self).game_time == old(self).game_time,
            final(self).game_time_state == old(self).game_time_state,
            final(self).split_index == old(self).split_index,
            final(self).variables@ == old(self).variables@,
            old(self).phase == TimerPhase::NotRunning ==> logs_appended(
                old(self).logs@,
                final(self).logs@,
                "Timer started."@,
                LogKind::Runtime(LogLevel::Debug),
            ),
            old(self).phase != TimerPhase::NotRunning ==> *final(self) == *old(self),
    {
        if self.phase == TimerPhase::NotRunning {
            self.phase = TimerPhase::Running;
            self.log("Timer started.".to_owned(), LogKind::Runtime(LogLevel::Debug));
        }
    }

    /// Advance to the next split: the index grows by exactly one when the
    /// timer is running, and nothing happens in any other phase.
    pub fn split(&mut self)
        requires
            old(self).wf(),
            old(self).split_index < usize::MAX,
        ensures
            final(self).wf(),
            final(self).split_index == split_index_after(
                old(self).phase,
                old(self).split_index as nat,
            ),
            final(self).phase == old(self).phase,
            final(self).game_time == old(self).game_time,
            final(self).game_time_state == old(self).game_time_state,
            final(self).variables@ == old(self).variables@,
            old(self).phase == TimerPhase::Running ==> logs_appended(
                old(self).logs@,
                final(self).logs@,
                "Splitted."@,
                LogKind::Runtime(LogLevel::Debug),
            ),
            old(self).phase != TimerPhase::Running ==> *final(self) == *old(self),
    {
        if self.phase == TimerPhase::Running {
            self.split_index = self.split_index + 1;
            self.log("Splitted.".to_owned(), LogKind::Runtime(LogLevel::Debug));
        }
    }

    /// Skip the next split: state-identical to `split`, only the log entry
    /// differs.
    pub fn skip_split(&mut self)
        requires
            old(self).wf(),
            old(self).split_index < usize::MAX,
        ensures
            final(self).wf(),
            final(self).split_index == split_index_after(
                old(self).phase,
                old(self).split_index as nat,
            ),
            final(self).phase == old(self).phase,
            final(self).game_time == old(self).game_time,
            final(self).game_time_state == old(self).game_time_state,
            final(self).variables@ == old(self).variables@,
            old(self).phase == TimerPhase::Running ==> logs_appended(
                old(self).logs@,
                final(self).logs@,
                "Split skipped."@,
                LogKind::Runtime(LogLevel::Debug),
            ),
            old(self).phase != TimerPhase::Running ==> *final(self) == *old(self),
    {
        if self.phase == TimerPhase::Running {
            self.split_index = self.split_index + 1;
            self.log("Split skipped.".to_owned(), LogKind::Runtime(LogLevel::Debug));
        }
    }

    /// Undo a split. From `Ended` the timer first returns to `Running`;
    /// from `Running` (or after that return) the split index is decremented,
    /// saturating at zero. From every other phase nothing happens.
    pub fn undo_split(&mut self)
        requires
            old(self).wf(),
        ensures
            final(self).wf(),
            final(self).game_time == old(self).game_time,
            final(self).game_time_state == old(self).game_time_state,
            final(self).variables@ == old(self).variables@,
            old(self).phase == TimerPhase::Running || old(self).phase == TimerPhase::Ended ==> {
                &&& final(self).phase == TimerPhase::Running
                &&& final(self).split_index == undo_split_index(old(self).split_index as nat)
                &&& logs_appended(
                    old(self).logs@,
                    final(self).logs@,
                    "Split undone."@,
                    LogKind::Runtime(LogLevel::Debug),
                )
            },
            !(old(self).phase == TimerPhase::Running || old(self).phase == TimerPhase::Ended)
                ==> *final(self) == *old(self),
    {
        if self.phase == TimerPhase::Ended {
            self.phase = TimerPhase::Running;
        }
        if self.phase == TimerPhase::Running {
            if self.split_index > 0 {
                self.split_index = self.split_index - 1;
            }
            self.log("Split undone.".to_owned(), LogKind::Runtime(LogLevel::Debug));
        }
    }

    /// Reset the run state: not running, split index zero, game time zero
    /// and uninitialized, variables cleared. The log is kept.
    pub fn reset_state(&mut self)
        ensures
            final(self).wf(),
            final(self).phase == TimerPhase::NotRunning,
            final(self).split_index == 0,
            final(self).game_time == (TimeSpan { seconds: 0, nanos: 0 }),
            final(self).game_time_state == GameTimeState::NotInitialized,
            final(self).variables@ == Seq::<(String, String)>::empty(),
            final(self).logs@ == old(self).logs@,
            final(self).utc_offset_seconds == old(self).utc_offset_seconds,
    {
        self.phase = TimerPhase::NotRunning;
        self.split_index = 0;
        self.game_time = TimeSpan::zero();
        self.game_time_state = GameTimeState::NotInitialized;
        self.variables.clear();
    }

    /// The reset request of the timer capability: `reset_state` plus a log
    /// entry, from any prior state.
    pub fn reset(&mut self)
        ensures
            final(self).wf(),
            final(self).phase == TimerPhase::NotRunning,
            final(self).split_index == 0,
            final(self).game_time == (TimeSpan { seconds: 0, nanos: 0 }),
            final(self).game_time_state == GameTimeState::NotInitialized,
            final(self).variables@ == Seq::<(String, String)>::empty(),
            logs_appended(
                old(self).logs@,
                final(self).logs@,
                "Run reset."@,
                LogKind::Runtime(LogLevel::Debug),
            ),
            final(self).utc_offset_seconds == old(self).utc_offset_seconds,
    {
        self.reset_state();
        self.log("Run reset.".to_owned(), LogKind::Runtime(LogLevel::Debug));
    }

    /// Clear the whole session: the run state and the entire log history.
    pub fn clear(&mut self)
        ensures
            final(self).wf(),
            final(self).phase == TimerPhase::NotRunning,
            final(self).split_index == 0,
            final(self).game_time == (TimeSpan { seconds: 0, nanos: 0 }),
            final(self).game_time_state == GameTimeState::NotInitialized,
            final(self).variables@ == Seq::<(String, String)>::empty(),
            final(self).logs@ == Seq::<LogEntry>::empty(),
            final(self).utc_offset_seconds == old(self).utc_offset_seconds,
    {
        self.reset_state();
        self.logs.clear();
    }

    /// Clear the variable mapping alone, as every load-family operation
    /// demands; run state and log are kept.
    pub fn clear_variables(&mut self)
        requires
            old(self).wf(),
        ensures
            final(self).wf(),
            final(self).variables@ == Seq::<(String, String)>::empty(),
            final(self).phase == old(self).phase,
            final(self).game_time == old(self).game_time,
            final(self).game_time_state == old(self).game_time_state,
            final(self).split_index == old(self).split_index,
            final(self).logs@ == old(self).logs@,
            final(self).utc_offset_seconds == old(self).utc_offset_seconds,
    {
        self.variables.clear();
    }

    /// Set the game time to exactly `time` (no monotonicity is enforced).
    /// A game-time clock that was never initialized starts running; an
    /// already paused or running clock keeps its state.
    pub fn set_game_time(&mut self, time: TimeSpan)
        requires
            old(self).wf(),
            time.wf(),
        ensures
            final(self).wf(),
            final(self).game_time == time,
            final(self).game_time_state == (if old(self).game_time_state
                == GameTimeState::NotInitialized {
                GameTimeState::Running
            } else {
                old(self).game_time_state
            }),
            final(self).phase == old(self).phase,
            final(self).split_index == old(self).split_index,
            final(self).variables@ == old(self).variables@,
            final(self).logs@ == old(self).logs@,
    {
        self.game_time = time;
        if self.game_time_state == GameTimeState::NotInitialized {
            self.game_time_state = GameTimeState::Running;
        }
    }

    /// Pause the game-time clock, from any state.
    pub fn pause_game_time(&mut self)
        ensures
            final(self).game_time_state == GameTimeState::Paused,
            final(self).phase == old(self).phase,
            final(self).game_time == old(self).game_time,
            final(self).split_index == old(self).split_index,
            final(self).variables@ == old(self).variables@,
            final(self).logs@ == old(self).logs@,
            final(self).wf() == old(self).wf(),
    {
        self.game_time_state = GameTimeState::Paused;
    }

    /// Resume the game-time clock, from any state.
    pub fn resume_game_time(&mut self)
        ensures
            final(self).game_time_state == GameTimeState::Running,
            final(self).phase == old(self).phase,
            final(self).game_time == old(self).game_time,
            final(self).split_index == old(self).split_index,
            final(self).variables@ == old(self).variables@,
            final(self).logs@ == old(self).logs@,
            final(self).wf() == old(self).wf(),
    {
        self.game_time_state = GameTimeState::Running;
    }

    /// Set a variable: overwrite the value of an existing key in place, or
    /// append a new key at the end, preserving first-insertion order.
    pub fn set_variable(&mut self, key: &String, value: &String)
        requires
            old(self).wf(),
            old(self).variables@.len() < usize::MAX,
        ensures
            final(self).wf(),
            final(self).phase == old(self).phase,
            final(self).game_time == old(self).game_time,
            final(self).game_time_state == old(self).game_time_state,
            final(self).split_index == old(self).split_index,
            final(self).logs@ == old(self).logs@,
            var_has_key(old(self).variables@, key@) ==> final(self).variables@ == old(
                self,
            ).variables@.update(
                var_key_index(old(self).variables@, key@),
                ((old(self).variables@[var_key_index(old(self).variables@, key@)].0, *value)),
            ),
            !var_has_key(old(self).variables@, key@) ==> final(self).variables@ == old(
                self,
            ).variables@.push(((*key, *value))),
    {
        let n = self.variables.len();
        let mut i: usize = 0;
        while i < n
            invariant
                0 <= i <= n,
                n == self.variables@.len(),
                *self == *old(self),
                old(self).wf(),
                forall|j: int| 0 <= j < i ==> self.variables@[j].0@ != key@,
            decreases n - i,
        {
            if self.variables[i].0 == *key {
                proof {
                    assert(var_has_key(self.variables@, key@));
                    let ci = var_key_index(self.variables@, key@);
                    assert(0 <= ci < self.variables@.len() && self.variables@[ci].0@ == key@);
                    assert(ci == i);
                }
                self.variables[i].1 = value.clone();
                proof {
                    assert(final(self).variables@ =~= old(self).variables@.update(
                        i as int,
                        (old(self).variables@[i as int].0, *value),
                    ));
                }
                return;
            }
            i = i + 1;
        }
        proof {
            assert(!var_has_key(self.variables@, key@));
        }
        self.variables.push((key.clone(), value.clone()));
        proof {
            assert(final(self).variables@ =~= old(self).variables@.push((*key, *value)));
        }
    }

    /// Append a message of the module itself to the log.
    pub fn log_auto_splitter(&mut self, message: String)
        ensures
            logs_appended(old(self).logs@, final(self).logs@, message@, LogKind::Module),
            Self::same_except_logs(*old(self), *final(self)),
            final(self).wf() == old(self).wf(),
    {
        self.log(message, LogKind::Module);
    }

    /// Append a runtime message with the given severity to the log.
    pub fn log_runtime(&mut self, message: String, level: LogLevel)
        ensures
            logs_appended(
                old(self).logs@,
                final(self).logs@,
                message@,
                LogKind::Runtime(level),
            ),
            Self::same_except_logs(*old(self), *final(self)),
            final(self).wf() == old(self).wf(),
    {
        self.log(message, LogKind::Runtime(level));
    }
}

/// Starting moves the timer to `Running` from `NotRunning` and exactly then:
/// every other phase is left alone, and a second start after a successful
/// one changes nothing further.
pub proof fn lemma_start_exactly_once(phase: TimerPhase)
    ensures
        start_phase(TimerPhase::NotRunning) == TimerPhase::Running,
        phase != TimerPhase::NotRunning ==> start_phase(phase) == phase,
        start_phase(start_phase(phase)) == start_phase(phase),
{
}

/// A split or skipped split grows the split index by exactly one when and
/// only when the timer is running; in every other phase it is unchanged.
pub proof fn lemma_split_increments_iff_running(phase: TimerPhase, index: nat)
    ensures
        split_index_after(phase, index) == index + 1 <==> phase == TimerPhase::Running,
        phase != TimerPhase::Running ==> split_index_after(phase, index) == index,
{
}

/// Undoing a split never drives the split index below zero, whatever the
/// starting index: it decrements by one and saturates at zero.
pub proof fn lemma_undo_split_never_negative(index: nat)
    ensures
        undo_split_index(index) >= 0,
        index > 0 ==> undo_split_index(index) == index - 1,
        index == 0 ==> undo_split_index(index) == 0,
{
}

} // verus!
