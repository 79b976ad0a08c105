use qubit_progress::ProgressCounter;
use qubit_progress::ProgressEvent;
use qubit_progress::ProgressEventBuildError;
use qubit_progress::ProgressMetric;
use qubit_progress::ProgressMetricSnapshotError;
use qubit_progress::ProgressPhase;
use qubit_progress::ProgressSchema;
use qubit_progress::ProgressSchemaError;
use qubit_progress::ProgressStage;
use qubit_progress::ProgressStageError;

fn schema() -> ProgressSchema {
    ProgressSchema::try_new(vec![
        ProgressMetric::new("files", "Files"),
        ProgressMetric::new("bytes", "Bytes"),
    ])
    .unwrap()
}

#[test]
fn schema_rejects_first_repeated_id() {
    let err = ProgressSchema::try_new(vec![
        ProgressMetric::new("a", "A"),
        ProgressMetric::new("b", "B"),
        ProgressMetric::new("a", "A again"),
        ProgressMetric::new("b", "B again"),
    ])
    .unwrap_err();
    assert_eq!(
        err,
        ProgressSchemaError::DuplicateMetricId {
            metric_id: "a".to_owned()
        }
    );
    assert_eq!(err.message(), "duplicate progress metric id: a");
}

#[test]
fn schema_lookups() {
    let schema = schema();
    assert!(schema.contains_metric("bytes"));
    assert!(!schema.contains_metric("items"));
    assert_eq!(schema.metric_name("files"), Some("Files"));
    assert_eq!(schema.metric_name("items"), None);
    assert_eq!(schema.metrics().len(), 2);
    assert_eq!(ProgressSchema::single("x", "X").metrics()[0].name(), "X");
    assert_eq!(ProgressSchema::default().metrics().len(), 0);
}

#[test]
fn counters_must_fit_the_schema() {
    let schema = schema();
    assert!(schema.validate_counters(&[
        ProgressCounter::new("files"),
        ProgressCounter::new("bytes")
    ]));
    assert!(!schema.validate_counters(&[ProgressCounter::new("items")]));
    assert!(!schema.validate_counters(&[
        ProgressCounter::new("files"),
        ProgressCounter::new("files")
    ]));
}

#[test]
fn event_build_errors_name_the_first_bad_counter() {
    let unknown = ProgressEvent::try_new(
        ProgressEvent::builder(schema())
            .add_counter(ProgressCounter::new("files"))
            .add_counter(ProgressCounter::new("items")),
    )
    .unwrap_err();
    assert_eq!(
        unknown,
        ProgressEventBuildError::UnknownMetricId {
            metric_id: "items".to_owned()
        }
    );
    assert_eq!(unknown.message(), "unknown progress metric id: items");
    let duplicate = ProgressEvent::try_new(
        ProgressEvent::builder(schema())
            .add_counter(ProgressCounter::new("bytes"))
            .add_counter(ProgressCounter::new("bytes")),
    )
    .unwrap_err();
    assert_eq!(
        duplicate,
        ProgressEventBuildError::DuplicateCounterMetricId {
            metric_id: "bytes".to_owned()
        }
    );
    assert_eq!(
        duplicate.message(),
        "duplicate progress counter metric id: bytes"
    );
}

#[test]
fn built_event_carries_what_the_builder_set() {
    let event = ProgressEvent::try_new(
        ProgressEvent::builder(schema())
            .finished()
            .counter("files", |c| c.total(10).completed(4).active(1).succeeded(3).failed(1))
            .stage_named("copy", "Copying")
            .elapsed(250),
    )
    .unwrap();
    assert_eq!(event.phase(), ProgressPhase::Finished);
    assert_eq!(event.elapsed(), 250);
    assert_eq!(event.stage().unwrap().name(), "Copying");
    let counter = event.counter("files").unwrap();
    assert_eq!(counter.total_count(), Some(10));
    assert_eq!(counter.completed_count(), 4);
    assert_eq!(counter.active_count(), 1);
    assert_eq!(counter.remaining_count(), Some(5));
    assert!(event.counter("bytes").is_none());
    let snapshots = event.metric_snapshots();
    assert_eq!(snapshots.len(), 1);
    assert_eq!(snapshots[0].metric_name(), "Files");
    assert_eq!(snapshots[0].succeeded_count(), 3);
    assert_eq!(snapshots[0].failed_count(), 1);
    assert_eq!(snapshots[0].remaining_count(), Some(5));
    assert_eq!(snapshots[0].stage().unwrap().id(), "copy");
}

#[test]
fn phase_constructors() {
    let counters = vec![ProgressCounter::new("files")];
    assert_eq!(
        ProgressEvent::started(schema(), counters, 0).phase(),
        ProgressPhase::Started
    );
    assert_eq!(
        ProgressEvent::running(schema(), vec![], 1).phase(),
        ProgressPhase::Running
    );
    assert_eq!(
        ProgressEvent::failed(schema(), vec![], 1).phase(),
        ProgressPhase::Failed
    );
    assert_eq!(
        ProgressEvent::canceled(schema(), vec![], 1).phase(),
        ProgressPhase::Canceled
    );
    assert!(ProgressPhase::Canceled.is_terminal());
    assert!(!ProgressPhase::Running.is_terminal());
    assert_eq!(ProgressPhase::Finished.as_str(), "finished");
}

#[test]
fn remaining_saturates_at_zero() {
    let counter = ProgressCounter::new("files").total(3).completed(2).active(4);
    assert_eq!(counter.remaining_count(), Some(0));
    assert_eq!(ProgressCounter::new("files").remaining_count(), None);
    assert_eq!(
        ProgressCounter::new("files").total(3).unknown_total().total_count(),
        None
    );
}

#[test]
fn stage_weights_are_checked_by_bit_pattern() {
    let stage = ProgressStage::new("copy", "Copy").with_index(1).with_total_stages(3);
    assert_eq!(stage.index(), Some(1));
    assert_eq!(stage.total_stages(), Some(3));
    assert_eq!(stage.weight_bits(), None);
    let weighted = stage.clone().try_with_weight_bits(2.5f64.to_bits()).unwrap();
    assert_eq!(weighted.weight_bits(), Some(2.5f64.to_bits()));
    assert_eq!(
        stage.clone().try_with_weight_bits(f64::NAN.to_bits()).unwrap_err(),
        ProgressStageError::NonFiniteWeight
    );
    assert_eq!(
        stage.clone().try_with_weight_bits(f64::INFINITY.to_bits()).unwrap_err(),
        ProgressStageError::NonFiniteWeight
    );
    assert_eq!(
        stage.clone().try_with_weight_bits((-1.0f64).to_bits()).unwrap_err(),
        ProgressStageError::NegativeWeight
    );
    assert!(stage.clone().try_with_weight_bits((-0.0f64).to_bits()).is_ok());
    assert_eq!(
        ProgressStageError::NegativeWeight.message(),
        "progress stage weight must be non-negative"
    );
    assert_eq!(
        ProgressStageError::NonFiniteWeight.message(),
        "progress stage weight must be finite"
    );
}

#[test]
fn snapshot_mismatch_message() {
    let err = ProgressMetricSnapshotError::MetricIdMismatch {
        metric_id: "files".to_owned(),
        counter_metric_id: "bytes".to_owned(),
    };
    assert_eq!(
        err.message(),
        "progress metric id files does not match counter metric id bytes"
    );
}
