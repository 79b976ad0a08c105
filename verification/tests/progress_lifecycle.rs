use qubit_progress::CompletionError;
use qubit_progress::ConfigurationError;
use qubit_progress::Direction;
use qubit_progress::FinishError;
use qubit_progress::GateLifecycle;
use qubit_progress::Metric;
use qubit_progress::MetricError;
use qubit_progress::MetricTransition;
use qubit_progress::Phase;
use qubit_progress::Progress;
use qubit_progress::StartError;
use qubit_progress::next_operation_id;

fn started(total: u64) -> Progress {
    let (progress, event) = Progress::builder()
        .metric(Metric::new("files", "Files").total(total))
        .attribute("job", "import")
        .start(Some(7))
        .unwrap();
    let event = event.unwrap();
    assert_eq!(event.phase(), Phase::Started);
    assert_eq!(event.sequence(), 0);
    progress
}

#[test]
fn start_emits_initial_event() {
    let (progress, event) = Progress::builder()
        .metric(Metric::new("files", "Files").total(2))
        .attribute("job", "import")
        .start(Some(7))
        .unwrap();
    let event = event.unwrap();
    assert_eq!(event.operation_id(), 7);
    assert_eq!(event.sequence(), 0);
    assert_eq!(event.phase(), Phase::Started);
    assert_eq!(event.elapsed(), 0);
    assert_eq!(event.attribute("job"), Some("import"));
    assert_eq!(event.metrics().len(), 1);
    assert_eq!(event.metrics()[0].total(), Some(2));
    assert_eq!(event.metrics()[0].active(), 0);
    assert!(progress.is_enabled());
    assert_eq!(progress.lifecycle(), GateLifecycle::Open);
}

#[test]
fn disabled_operation_produces_no_events() {
    let (mut progress, event) = Progress::builder()
        .metric(Metric::new("files", "Files"))
        .start(None)
        .unwrap();
    assert!(event.is_none());
    assert!(!progress.is_enabled());
    assert_eq!(progress.report(10), Ok(None));
    assert_eq!(progress.finish(10).unwrap(), None);
}

#[test]
fn start_rejects_invalid_configuration() {
    assert_eq!(
        Progress::builder().start(Some(1)).unwrap_err(),
        StartError::InvalidConfiguration(ConfigurationError::NoMetrics)
    );
    assert_eq!(
        Progress::builder()
            .metric(Metric::new(" ", "Files"))
            .start(Some(1))
            .unwrap_err(),
        StartError::InvalidConfiguration(ConfigurationError::EmptyMetricId { index: 0 })
    );
    assert_eq!(
        Progress::builder()
            .metric(Metric::new("files", "\t"))
            .start(Some(1))
            .unwrap_err(),
        StartError::InvalidConfiguration(ConfigurationError::EmptyMetricName {
            metric_id: "files".to_owned()
        })
    );
    assert_eq!(
        Progress::builder()
            .metric(Metric::new("files", "Files"))
            .metric(Metric::new("files", "Other"))
            .start(Some(1))
            .unwrap_err(),
        StartError::InvalidConfiguration(ConfigurationError::DuplicateMetricId {
            metric_id: "files".to_owned()
        })
    );
    assert_eq!(
        Progress::builder()
            .metric(Metric::new("files", "Files"))
            .attribute("  ", "x")
            .start(Some(1))
            .unwrap_err(),
        StartError::InvalidConfiguration(ConfigurationError::EmptyAttributeKey {
            key: "  ".to_owned()
        })
    );
}

#[test]
fn reports_carry_consecutive_sequences_and_latest_counts() {
    let mut progress = started(2);
    let index = progress.metric("files").unwrap();
    progress
        .update_metric(index, MetricTransition::Start, 1, Direction::Forward)
        .unwrap();
    let first = progress.report(100).unwrap().unwrap();
    progress
        .update_metric(index, MetricTransition::Succeed, 1, Direction::Forward)
        .unwrap();
    let second = progress.report(200).unwrap().unwrap();
    assert_eq!(first.sequence(), 1);
    assert_eq!(second.sequence(), 2);
    assert_eq!(first.phase(), Phase::Running);
    assert_eq!(first.metrics()[0].active(), 1);
    assert_eq!(second.metrics()[0].active(), 0);
    assert_eq!(second.metrics()[0].succeeded(), 1);
    assert_eq!(second.elapsed(), 200);
    assert_eq!(first.operation_id(), second.operation_id());
}

#[test]
fn unknown_metric_has_no_position() {
    let progress = started(1);
    assert_eq!(progress.metric("bytes"), None);
    assert_eq!(progress.metric("files"), Some(0));
}

#[test]
fn rejected_update_changes_nothing() {
    let mut progress = started(1);
    let before = progress.counts_at(0);
    let err = progress
        .update_metric(0, MetricTransition::Start, 2, Direction::Forward)
        .unwrap_err();
    assert_eq!(
        err,
        MetricError::TotalExceeded {
            metric_id: "files".to_owned(),
            total: 1,
            attempted: 2,
        }
    );
    assert_eq!(progress.counts_at(0), before);
}

#[test]
fn finish_succeeds_when_work_is_complete() {
    let mut progress = started(2);
    progress
        .update_metric(0, MetricTransition::Start, 2, Direction::Forward)
        .unwrap();
    progress
        .update_metric(0, MetricTransition::Succeed, 2, Direction::Forward)
        .unwrap();
    let event = progress.finish(5_000).unwrap().unwrap();
    assert_eq!(event.phase(), Phase::Succeeded);
    assert_eq!(event.sequence(), 1);
    assert_eq!(progress.lifecycle(), GateLifecycle::Closed);
}

#[test]
fn finish_with_active_work_is_incomplete_and_closes() {
    let mut progress = started(3);
    progress
        .update_metric(0, MetricTransition::Start, 2, Direction::Forward)
        .unwrap();
    let err = progress.finish(42).unwrap_err();
    assert_eq!(
        err,
        FinishError::Incomplete {
            elapsed: 42,
            source: CompletionError::ActiveWork {
                metric_id: "files".to_owned(),
                active: 2,
            },
        }
    );
    assert_eq!(err.elapsed(), 42);
    assert_eq!(progress.lifecycle(), GateLifecycle::Closed);
}

#[test]
fn finish_below_total_reports_incomplete_total() {
    let mut progress = started(3);
    progress
        .update_metric(0, MetricTransition::Start, 1, Direction::Forward)
        .unwrap();
    progress
        .update_metric(0, MetricTransition::Complete, 1, Direction::Forward)
        .unwrap();
    assert_eq!(
        progress.validate_finish(),
        Err(CompletionError::IncompleteTotal {
            metric_id: "files".to_owned(),
            completed: 1,
            total: 3,
        })
    );
}

#[test]
fn recoverable_finish_keeps_the_operation_open() {
    let mut progress = started(1);
    let err = progress.finish_recoverable(9).unwrap_err();
    assert!(matches!(err, FinishError::Incomplete { .. }));
    assert_eq!(progress.lifecycle(), GateLifecycle::Open);
    progress
        .update_metric(0, MetricTransition::Start, 1, Direction::Forward)
        .unwrap();
    progress
        .update_metric(0, MetricTransition::Succeed, 1, Direction::Forward)
        .unwrap();
    let event = progress.finish_recoverable(10).unwrap().unwrap();
    assert_eq!(event.phase(), Phase::Succeeded);
}

#[test]
fn no_update_after_terminal_event() {
    let mut progress = started(5);
    let event = progress.fail(77).unwrap().unwrap();
    assert_eq!(event.phase(), Phase::Failed);
    assert_eq!(
        progress
            .update_metric(0, MetricTransition::Start, 1, Direction::Forward)
            .unwrap_err(),
        MetricError::Closed {
            metric_id: "files".to_owned()
        }
    );
}

#[test]
fn cancel_and_unchecked_finish_emit_their_phases() {
    let mut progress = started(5);
    assert_eq!(progress.cancel(1).unwrap().unwrap().phase(), Phase::Cancelled);
    let mut progress = started(5);
    assert_eq!(
        progress.finish_unchecked(1).unwrap().unwrap().phase(),
        Phase::Succeeded
    );
}

#[test]
fn report_schedule_follows_interval() {
    let (mut progress, _) = Progress::builder()
        .interval(1_000)
        .metric(Metric::new("files", "Files"))
        .start(Some(3))
        .unwrap();
    assert_eq!(progress.report_interval(), 1_000);
    assert!(!progress.is_due(999));
    assert!(progress.is_due(1_000));
    assert_eq!(progress.time_until_due(400), 600);
    assert_eq!(progress.report_if_due(500), Ok(None));
    let event = progress.report_if_due(1_500).unwrap().unwrap();
    assert_eq!(event.sequence(), 1);
    assert!(!progress.is_due(2_000));
    assert!(progress.is_due(2_500));
}

#[test]
fn zero_interval_is_always_due() {
    let (progress, _) = Progress::builder()
        .metric(Metric::new("files", "Files"))
        .start(Some(3))
        .unwrap();
    assert!(progress.is_due(0));
}

#[test]
fn closing_without_event() {
    let mut progress = started(1);
    progress.close();
    assert_eq!(progress.lifecycle(), GateLifecycle::Closed);
}

#[test]
fn one_operation_emits_an_ordered_history() {
    let (mut progress, started) = Progress::builder()
        .metric(Metric::new("b", "B").total(3))
        .metric(Metric::new("a", "A"))
        .start(Some(21))
        .unwrap();
    let mut events = vec![started.unwrap()];
    progress
        .update_metric(0, MetricTransition::Start, 3, Direction::Forward)
        .unwrap();
    events.push(progress.report(10).unwrap().unwrap());
    progress
        .update_metric(0, MetricTransition::Succeed, 3, Direction::Forward)
        .unwrap();
    events.push(progress.report(20).unwrap().unwrap());
    events.push(progress.finish(30).unwrap().unwrap());
    for (i, event) in events.iter().enumerate() {
        assert_eq!(event.operation_id(), 21);
        assert_eq!(event.sequence(), i as u64);
        assert_eq!(event.sequence() == 0, event.phase() == Phase::Started);
        assert_eq!(event.metrics().len(), 2);
        assert_eq!(event.metrics()[0].id(), "b");
        assert_eq!(event.metrics()[0].total(), Some(3));
        assert_eq!(event.metrics()[1].id(), "a");
        assert_eq!(event.metrics()[1].total(), None);
    }
    assert_eq!(events[0].elapsed(), 0);
    assert!(events.windows(2).all(|w| w[0].elapsed() <= w[1].elapsed()));
    assert_eq!(events[1].phase(), Phase::Running);
    assert_eq!(events[3].phase(), Phase::Succeeded);
    let (mut disabled, _) = Progress::builder()
        .metric(Metric::new("files", "Files"))
        .start(None)
        .unwrap();
    assert_eq!(disabled.report(1), Ok(None));
}

#[test]
fn operation_ids_are_nonzero_and_increasing() {
    assert_eq!(next_operation_id(5).unwrap(), (5, 6));
    assert_eq!(next_operation_id(u64::MAX).unwrap(), (u64::MAX, 0));
    assert_eq!(
        next_operation_id(0).unwrap_err(),
        StartError::OperationIdExhausted
    );
    let mut counter = 1;
    let mut previous = 0;
    for _ in 0..5 {
        let (id, next) = next_operation_id(counter).unwrap();
        assert!(id > previous);
        previous = id;
        counter = next;
    }
}

#[test]
fn snapshots_follow_declaration_order() {
    let (progress, _) = Progress::builder()
        .metric(Metric::new("b", "B"))
        .metric(Metric::new("a", "A"))
        .start(Some(1))
        .unwrap();
    let snapshots = progress.metric_snapshots();
    assert_eq!(snapshots.len(), 2);
    assert_eq!(snapshots[0].id(), "b");
    assert_eq!(snapshots[1].id(), "a");
    assert_eq!(progress.metric_count(), 2);
    assert_eq!(progress.metric_at(1).name(), "A");
}

#[test]
fn first_blank_attribute_key_in_key_order_is_reported() {
    assert_eq!(
        Progress::builder()
            .metric(Metric::new("files", "Files"))
            .attribute("   ", "x")
            .attribute("z", "y")
            .attribute(" ", "w")
            .start(Some(1))
            .unwrap_err(),
        StartError::InvalidConfiguration(ConfigurationError::EmptyAttributeKey {
            key: " ".to_owned()
        })
    );
}

#[test]
fn a_due_report_changes_only_sequence_and_deadline() {
    let (mut progress, _) = Progress::builder()
        .interval(100)
        .metric(Metric::new("files", "Files").total(4))
        .start(Some(5))
        .unwrap();
    progress
        .update_metric(0, MetricTransition::Start, 2, Direction::Forward)
        .unwrap();
    let counts = progress.counts_at(0);
    let event = progress.report_if_due(150).unwrap().unwrap();
    assert_eq!(event.sequence(), 1);
    assert_eq!(progress.counts_at(0), counts);
    assert_eq!(progress.lifecycle(), GateLifecycle::Open);
    assert_eq!(progress.time_until_due(150), 100);
}
