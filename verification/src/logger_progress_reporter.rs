//! Configuration and line format of the progress reporter backed by the
//! `log` crate.

use vstd::prelude::*;
use vstd::string::StringExecFns;

use crate::duration_text::{append_decimal, decimal};
use crate::model::ProgressPhase;
use crate::model::progress_phase_name;
use crate::progress_counters::{ProgressCounters, ProgressCountersView};

verus! {

/// The verbosity level of an emitted log record, from most to least severe;
/// each names the `log` crate's level of the same name.
#[derive(Clone, Copy, Debug, PartialEq, Eq, Hash, Structural)]
pub enum LogLevel {
    /// Very serious errors.
    Error,
    /// Hazardous situations.
    Warn,
    /// Useful information.
    Info,
    /// Lower-priority information.
    Debug,
    /// Very low-priority, often extremely verbose, information.
    Trace,
}

/// Progress reporter that emits progress events through the `log` crate.
#[derive(Debug, PartialEq, Eq)]
pub struct LoggerProgressReporter {
    target: String,
    level: LogLevel,
}

impl LoggerProgressReporter {
    /// The log target used for emitted records.
    pub closed spec fn target_spec(&self) -> Seq<char> {
        self.target@
    }

    /// The log level used for emitted records.
    pub closed spec fn level_spec(&self) -> LogLevel {
        self.level
    }

    /// Creates a logger reporter for `target` at [`LogLevel::Info`].
    pub fn new(target: &str) -> (r: Self)
        ensures
            r.target_spec() == target@,
            r.level_spec() == LogLevel::Info,
    {
        LoggerProgressReporter { target: target.to_owned(), level: LogLevel::Info }
    }

    /// Returns a copy configured with a log level.
    pub fn with_level(self, level: LogLevel) -> (r: Self)
        ensures
            r.target_spec() == self.target_spec(),
            r.level_spec() == level,
    {
        LoggerProgressReporter { level, ..self }
    }

    /// Returns the log target.
    pub fn target(&self) -> (t: &str)
        ensures
            t@ == self.target_spec(),
    {
        self.target.as_str()
    }

    /// Returns the log level.
    pub fn level(&self) -> (l: LogLevel)
        ensures
            l == self.level_spec(),
    {
        self.level
    }
}

impl Clone for LoggerProgressReporter {
    fn clone(&self) -> (r: Self)
        ensures
            r.target_spec() == self.target_spec(),
            r.level_spec() == self.level_spec(),
    {
        LoggerProgressReporter { target: self.target.clone(), level: self.level }
    }
}

impl Default for LoggerProgressReporter {
    /// Creates a logger reporter with target `qubit_progress` at
    /// [`LogLevel::Info`].
    fn default() -> (r: Self)
        ensures
            r.target_spec() == "qubit_progress"@,
            r.level_spec() == LogLevel::Info,
    {
        LoggerProgressReporter::new("qubit_progress")
    }
}

/// The `Debug` text of an optional count: `Some(n)` or `None`.
pub open spec fn optional_count_text(n: Option<usize>) -> Seq<char> {
    match n {
        Some(v) => "Some("@ + decimal(v as nat) + ")"@,
        None => "None"@,
    }
}

/// The one-line log message for an event of `phase`, in stage `stage` when
/// there is one, with `counters` and the progress text `progress`.
pub open spec fn event_line(
    phase: ProgressPhase,
    stage: Option<Seq<char>>,
    counters: ProgressCountersView,
    progress: Seq<char>,
) -> Seq<char> {
    "progress phase="@ + progress_phase_name(phase) + match stage {
        Some(name) => ", stage="@ + name,
        None => Seq::empty(),
    } + ", completed="@ + decimal(counters.completed as nat) + ", total="@ + optional_count_text(
        counters.total,
    ) + ", active="@ + decimal(counters.active as nat) + ", failed="@ + decimal(
        counters.failed as nat,
    ) + ", progress="@ + progress
}

/// Formats the log line for one progress event from its phase, the name of
/// its current stage, its counters and the text of its completed percentage
/// (`"unknown"` when the total is unknown).
pub fn format_event(
    phase: ProgressPhase,
    stage_name: Option<&str>,
    counters: &ProgressCounters,
    progress: &str,
) -> (line: String)
    ensures
        line@ == event_line(
            phase,
            match stage_name {
                Some(s) => Some(s@),
                None => None,
            },
            counters@,
            progress@,
        ),
{
    proof {
        reveal_strlit("");
    }
    let mut line = String::from_str("progress phase=");
    line.append(phase.as_str());
    let ghost after_phase = line@;
    match stage_name {
        Some(name) => {
            line.append(", stage=");
            line.append(name);
        },
        None => {},
    }
    line.append(", completed=");
    append_decimal(&mut line, counters.completed_count() as u128);
    line.append(", total=");
    match counters.total_count() {
        Some(total) => {
            line.append("Some(");
            append_decimal(&mut line, total as u128);
            line.append(")");
        },
        None => {
            line.append("None");
        },
    }
    line.append(", active=");
    append_decimal(&mut line, counters.active_count() as u128);
    line.append(", failed=");
    append_decimal(&mut line, counters.failed_count() as u128);
    line.append(", progress=");
    line.append(progress);
    line
}

} // verus!
