use qubit_progress::Direction;
use qubit_progress::Metric;
use qubit_progress::MetricCounts;
use qubit_progress::MetricError;
use qubit_progress::MetricSnapshot;
use qubit_progress::MetricTransition;
use qubit_progress::ValidationError;

fn counts(active: u64, unclassified: u64, succeeded: u64, failed: u64, cancelled: u64) -> MetricCounts {
    MetricCounts {
        active,
        completed_unclassified: unclassified,
        succeeded,
        failed,
        cancelled,
    }
}

#[test]
fn start_moves_work_into_active() {
    let next = MetricCounts::zero()
        .apply(MetricTransition::Start, 3, Direction::Forward, "files", Some(10))
        .unwrap();
    assert_eq!(next, counts(3, 0, 0, 0, 0));
}

#[test]
fn each_terminal_transition_moves_active_work_to_its_state() {
    let start = counts(8, 0, 0, 0, 0);
    let cases = [
        (MetricTransition::Complete, counts(6, 2, 0, 0, 0)),
        (MetricTransition::Succeed, counts(6, 0, 2, 0, 0)),
        (MetricTransition::Fail, counts(6, 0, 0, 2, 0)),
        (MetricTransition::Cancel, counts(6, 0, 0, 0, 2)),
    ];
    for (transition, expected) in cases {
        let next = start
            .apply(transition, 2, Direction::Forward, "files", None)
            .unwrap();
        assert_eq!(next, expected);
    }
}

#[test]
fn rollback_undoes_forward_on_concrete_counts() {
    let before = counts(4, 1, 2, 0, 0);
    for transition in [
        MetricTransition::Start,
        MetricTransition::Complete,
        MetricTransition::Succeed,
        MetricTransition::Fail,
        MetricTransition::Cancel,
    ] {
        let forward = before
            .apply(transition, 2, Direction::Forward, "items", Some(100))
            .unwrap();
        let back = forward
            .apply(transition, 2, Direction::Rollback, "items", Some(100))
            .unwrap();
        assert_eq!(back, before);
    }
}

#[test]
fn transitions_conserve_started_work() {
    let before = counts(5, 0, 0, 0, 0);
    let after = before
        .apply(MetricTransition::Succeed, 3, Direction::Forward, "items", None)
        .unwrap();
    assert_eq!(
        after.active + after.completed_unclassified + after.succeeded + after.failed + after.cancelled,
        5
    );
}

#[test]
fn completing_more_than_active_is_insufficient() {
    let err = counts(1, 0, 0, 0, 0)
        .apply(MetricTransition::Succeed, 2, Direction::Forward, "files", None)
        .unwrap_err();
    assert_eq!(
        err,
        MetricError::InsufficientCount {
            metric_id: "files".to_owned(),
            transition: MetricTransition::Succeed,
            requested: 2,
            available: 1,
        }
    );
}

#[test]
fn rolling_back_more_than_target_is_insufficient() {
    let err = counts(0, 0, 1, 0, 0)
        .apply(MetricTransition::Succeed, 3, Direction::Rollback, "files", None)
        .unwrap_err();
    assert_eq!(
        err,
        MetricError::InsufficientCount {
            metric_id: "files".to_owned(),
            transition: MetricTransition::Succeed,
            requested: 3,
            available: 1,
        }
    );
}

#[test]
fn starting_above_total_is_rejected() {
    let err = counts(2, 0, 0, 0, 0)
        .apply(MetricTransition::Start, 2, Direction::Forward, "files", Some(3))
        .unwrap_err();
    assert_eq!(
        err,
        MetricError::TotalExceeded {
            metric_id: "files".to_owned(),
            total: 3,
            attempted: 4,
        }
    );
}

#[test]
fn starting_past_u64_max_overflows() {
    let err = counts(u64::MAX, 0, 0, 0, 0)
        .apply(MetricTransition::Start, 1, Direction::Forward, "files", None)
        .unwrap_err();
    assert_eq!(
        err,
        MetricError::CountOverflow {
            metric_id: "files".to_owned(),
        }
    );
}

#[test]
fn completed_sums_terminal_states() {
    assert_eq!(counts(9, 1, 2, 3, 4).completed("m"), Ok(10));
    assert_eq!(counts(9, 1, 2, 3, 4).occupied("m"), Ok(19));
    assert_eq!(
        counts(0, u64::MAX, 1, 0, 0).completed("m"),
        Err(MetricError::CountOverflow {
            metric_id: "m".to_owned()
        })
    );
}

#[test]
fn validate_checks_total() {
    assert_eq!(counts(1, 1, 0, 0, 0).validate("m", Some(2)), Ok(()));
    assert_eq!(
        counts(2, 1, 0, 0, 0).validate("m", Some(2)),
        Err(MetricError::TotalExceeded {
            metric_id: "m".to_owned(),
            total: 2,
            attempted: 3,
        })
    );
}

#[test]
fn snapshot_from_counts_reports_every_count() {
    let metric = Metric::new("bytes", "Bytes").total(100);
    let snapshot = MetricSnapshot::from_counts(&metric, counts(5, 1, 2, 3, 4)).unwrap();
    assert_eq!(snapshot.id(), "bytes");
    assert_eq!(snapshot.name(), "Bytes");
    assert_eq!(snapshot.total(), Some(100));
    assert_eq!(snapshot.active(), 5);
    assert_eq!(snapshot.completed(), 10);
    assert_eq!(snapshot.succeeded(), 2);
    assert_eq!(snapshot.failed(), 3);
    assert_eq!(snapshot.cancelled(), 4);
}

#[test]
fn metric_builder_keeps_fixed_metadata() {
    let metric = Metric::new("files", "Files");
    assert_eq!(metric.id(), "files");
    assert_eq!(metric.name(), "Files");
    assert_eq!(metric.configured_total(), None);
    assert_eq!(metric.total(7).configured_total(), Some(7));
}

#[test]
fn transition_names_are_stable() {
    assert_eq!(MetricTransition::Start.as_str(), "start");
    assert_eq!(MetricTransition::Complete.as_str(), "complete");
    assert_eq!(MetricTransition::Succeed.as_str(), "succeed");
    assert_eq!(MetricTransition::Fail.as_str(), "fail");
    assert_eq!(MetricTransition::Cancel.as_str(), "cancel");
}

#[test]
fn read_snapshots_must_be_consistent() {
    let ok = MetricSnapshot::try_from_parts("files", "Files", Some(10), 6, 2, 3, 1, 1).unwrap();
    assert_eq!(ok.completed(), 6);
    assert_eq!(ok.active(), 2);
    let cases = [
        (
            MetricSnapshot::try_from_parts(" ", "Files", None, 0, 0, 0, 0, 0),
            ValidationError::EmptyMetricId { index: 0 },
        ),
        (
            MetricSnapshot::try_from_parts("files", "", None, 0, 0, 0, 0, 0),
            ValidationError::EmptyMetricName {
                metric_id: "files".to_owned(),
            },
        ),
        (
            MetricSnapshot::try_from_parts("files", "Files", None, u64::MAX, 0, u64::MAX, 1, 0),
            ValidationError::CountOverflow {
                metric_id: "files".to_owned(),
            },
        ),
        (
            MetricSnapshot::try_from_parts("files", "Files", None, 2, 0, 2, 1, 0),
            ValidationError::ClassifiedExceedsCompleted {
                metric_id: "files".to_owned(),
            },
        ),
        (
            MetricSnapshot::try_from_parts("files", "Files", Some(0), 0, 1, 0, 0, 0),
            ValidationError::NonZeroCountsForZeroTotal {
                metric_id: "files".to_owned(),
            },
        ),
        (
            MetricSnapshot::try_from_parts("files", "Files", None, u64::MAX, 1, 0, 0, 0),
            ValidationError::CountOverflow {
                metric_id: "files".to_owned(),
            },
        ),
        (
            MetricSnapshot::try_from_parts("files", "Files", Some(5), 4, 2, 0, 0, 0),
            ValidationError::CountsExceedTotal {
                metric_id: "files".to_owned(),
            },
        ),
    ];
    for (result, expected) in cases {
        assert_eq!(result.unwrap_err(), expected);
    }
}
