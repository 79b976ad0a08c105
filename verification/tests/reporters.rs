use qubit_progress::LogLevel;
use qubit_progress::LoggerProgressReporter;
use qubit_progress::NoOpProgressReporter;
use qubit_progress::ProgressCounters;
use qubit_progress::ProgressPhase;
use qubit_progress::format_event;

#[test]
fn counters_keep_configured_values() {
    let counters = ProgressCounters::new(Some(10))
        .with_completed_count(4)
        .with_active_count(2)
        .with_succeeded_count(3)
        .with_failed_count(1);
    assert_eq!(counters.total_count(), Some(10));
    assert_eq!(counters.completed_count(), 4);
    assert_eq!(counters.active_count(), 2);
    assert_eq!(counters.succeeded_count(), 3);
    assert_eq!(counters.failed_count(), 1);
    assert_eq!(counters.remaining_count(), Some(4));
}

#[test]
fn remaining_counters_saturate_or_are_unknown() {
    assert_eq!(
        ProgressCounters::new(Some(3))
            .with_completed_count(5)
            .remaining_count(),
        Some(0)
    );
    assert_eq!(ProgressCounters::new(None).remaining_count(), None);
    assert_eq!(
        ProgressCounters::new(Some(5))
            .with_completed_count(usize::MAX)
            .with_active_count(1)
            .remaining_count(),
        Some(0)
    );
}

#[test]
fn logger_reporter_configuration() {
    let reporter = LoggerProgressReporter::new("jobs");
    assert_eq!(reporter.target(), "jobs");
    assert_eq!(reporter.level(), LogLevel::Info);
    let debug = reporter.clone().with_level(LogLevel::Debug);
    assert_eq!(debug.level(), LogLevel::Debug);
    assert_eq!(debug.target(), "jobs");
    let default = LoggerProgressReporter::default();
    assert_eq!(default.target(), "qubit_progress");
    assert_eq!(default.level(), LogLevel::Info);
}

#[test]
fn log_lines_list_counts_and_progress() {
    let counters = ProgressCounters::new(Some(8))
        .with_completed_count(2)
        .with_active_count(1)
        .with_failed_count(1);
    assert_eq!(
        format_event(ProgressPhase::Running, None, &counters, "25.00%"),
        "progress phase=running, completed=2, total=Some(8), active=1, failed=1, progress=25.00%"
    );
    assert_eq!(
        format_event(
            ProgressPhase::Finished,
            Some("Copy"),
            &ProgressCounters::new(None),
            "unknown"
        ),
        "progress phase=finished, stage=Copy, completed=0, total=None, active=0, failed=0, progress=unknown"
    );
}

#[test]
fn no_op_reporter_is_a_plain_value() {
    assert_eq!(NoOpProgressReporter::default(), NoOpProgressReporter);
}
