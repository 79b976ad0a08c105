use qubit_progress::Direction;
use qubit_progress::Metric;
use qubit_progress::MetricCounts;
use qubit_progress::MetricDelta;
use qubit_progress::MetricError;
use qubit_progress::MetricTransition;
use qubit_progress::Progress;

/// Reference model of one combined update, written independently with
/// checked arithmetic.
fn model(counts: MetricCounts, delta: [u64; 5], total: Option<u64>) -> Option<MetricCounts> {
    let [started, unclassified, succeeded, failed, cancelled] = delta;
    let terminal = unclassified
        .checked_add(succeeded)?
        .checked_add(failed)?
        .checked_add(cancelled)?;
    let available = counts.active.checked_add(started)?;
    if terminal > available {
        return None;
    }
    let next = MetricCounts {
        active: available - terminal,
        completed_unclassified: counts.completed_unclassified.checked_add(unclassified)?,
        succeeded: counts.succeeded.checked_add(succeeded)?,
        failed: counts.failed.checked_add(failed)?,
        cancelled: counts.cancelled.checked_add(cancelled)?,
    };
    let completed = next
        .completed_unclassified
        .checked_add(next.succeeded)?
        .checked_add(next.failed)?
        .checked_add(next.cancelled)?;
    let occupied = completed.checked_add(next.active)?;
    if total.is_some_and(|limit| occupied > limit) {
        return None;
    }
    Some(next)
}

fn delta_of(values: [u64; 5]) -> MetricDelta {
    MetricDelta::new()
        .started(values[0])
        .unclassified(values[1])
        .succeeded(values[2])
        .failed(values[3])
        .cancelled(values[4])
}

#[test]
fn deltas_agree_with_the_reference_model() {
    let interesting = [0, 1, 2, u64::MAX - 1, u64::MAX];
    let totals = [None, Some(0), Some(1), Some(u64::MAX)];
    let starts = [
        MetricCounts::zero(),
        MetricCounts {
            active: 3,
            completed_unclassified: 1,
            succeeded: 1,
            failed: 0,
            cancelled: 0,
        },
    ];
    for total in totals {
        for start in starts {
            for a in interesting {
                for b in interesting {
                    for slot in 1..5 {
                        let mut values = [a, 0, 0, 0, 0];
                        values[slot] = b;
                        let expected = model(start, values, total);
                        assert_eq!(start.apply_delta(delta_of(values), "m", total).ok(), expected);
                    }
                }
            }
        }
    }
}

#[test]
fn single_field_delta_matches_its_transition() {
    let start = MetricCounts {
        active: 4,
        completed_unclassified: 0,
        succeeded: 0,
        failed: 0,
        cancelled: 0,
    };
    let by_delta = start.apply_delta(MetricDelta::new().succeeded(3), "m", Some(10)).ok();
    let by_transition = start
        .apply(MetricTransition::Succeed, 3, Direction::Forward, "m", Some(10))
        .ok();
    assert_eq!(by_delta, by_transition);
    let rejected = start.apply_delta(MetricDelta::new().failed(5), "m", None);
    assert_eq!(
        rejected,
        Err(MetricError::InsufficientCount {
            metric_id: "m".to_owned(),
            transition: MetricTransition::Complete,
            requested: 5,
            available: 4,
        })
    );
    assert_eq!(
        start.apply_delta(MetricDelta::new().started(7), "m", Some(10)),
        Err(MetricError::TotalExceeded {
            metric_id: "m".to_owned(),
            total: 10,
            attempted: 11,
        })
    );
    assert_eq!(
        start.apply_delta(MetricDelta::new().started(u64::MAX), "m", None),
        Err(MetricError::CountOverflow {
            metric_id: "m".to_owned()
        })
    );
}

#[test]
fn progress_applies_whole_deltas() {
    let (mut progress, _) = Progress::builder()
        .metric(Metric::new("items", "Items").total(5))
        .start(Some(11))
        .unwrap();
    assert_eq!(
        progress.apply_delta(0, MetricDelta::new().started(4).succeeded(2).failed(1)),
        Ok(())
    );
    let counts = progress.counts_at(0);
    assert_eq!(counts.active, 1);
    assert_eq!(counts.succeeded, 2);
    assert_eq!(counts.failed, 1);
    assert_eq!(
        progress.apply_delta(0, MetricDelta::new().started(3)),
        Err(MetricError::TotalExceeded {
            metric_id: "items".to_owned(),
            total: 5,
            attempted: 7,
        })
    );
    assert_eq!(progress.counts_at(0), counts);
    progress.close();
    assert_eq!(
        progress.apply_delta(0, MetricDelta::new()),
        Err(MetricError::Closed {
            metric_id: "items".to_owned()
        })
    );
}
