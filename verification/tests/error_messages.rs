use qubit_progress::CompletionError;
use qubit_progress::ConfigurationError;
use qubit_progress::DeliveryError;
use qubit_progress::EmissionError;
use qubit_progress::Event;
use qubit_progress::FinishError;
use qubit_progress::MetricError;
use qubit_progress::MetricTransition;
use qubit_progress::OperationAttributes;
use qubit_progress::Phase;
use qubit_progress::ProgressError;
use qubit_progress::ReportError;
use qubit_progress::ReporterError;
use qubit_progress::StartError;
use qubit_progress::TerminalError;
use qubit_progress::ValidationError;

fn delivery() -> DeliveryError {
    let event = Event::new(4, 2, Phase::Running, OperationAttributes::new(), vec![], 10);
    DeliveryError::new(event, ReporterError::message("disk full"))
}

#[test]
fn metric_errors_quote_the_metric_id() {
    assert_eq!(
        MetricError::Closed {
            metric_id: "files".to_owned()
        }
        .message(),
        "metric \"files\" is closed"
    );
    assert_eq!(
        MetricError::InsufficientCount {
            metric_id: "files".to_owned(),
            transition: MetricTransition::Succeed,
            requested: 3,
            available: 1,
        }
        .message(),
        "metric \"files\" cannot succeed 3 work items because only 1 are available"
    );
    assert_eq!(
        MetricError::TotalExceeded {
            metric_id: "files".to_owned(),
            total: 10,
            attempted: 12,
        }
        .message(),
        "metric \"files\" would occupy 12 work items above total 10"
    );
    assert_eq!(
        MetricError::TotalBelowOccupied {
            metric_id: "files".to_owned(),
            total: 1,
            occupied: 5,
        }
        .message(),
        "metric \"files\" total 1 is below occupied work 5"
    );
    assert_eq!(
        MetricError::CountOverflow {
            metric_id: "a\"b".to_owned()
        }
        .message(),
        "counts for metric \"a\\\"b\" overflowed"
    );
    assert_eq!(
        MetricError::StatePoisoned {
            metric_id: "files".to_owned()
        }
        .message(),
        "state lock for metric \"files\" is poisoned"
    );
}

#[test]
fn quoting_is_supplied_by_the_caller_when_asked() {
    let error = MetricError::Closed {
        metric_id: "files".to_owned(),
    };
    assert_eq!(error.metric_id(), "files");
    assert_eq!(error.message_with_quoted_id("<files>"), "metric <files> is closed");
}

#[test]
fn configuration_errors_explain_themselves() {
    assert_eq!(
        ConfigurationError::NoMetrics.message(),
        "a progress operation requires at least one metric"
    );
    assert_eq!(
        ConfigurationError::EmptyMetricId { index: 12 }.message(),
        "metric at index 12 has an empty ID"
    );
    assert_eq!(
        ConfigurationError::EmptyMetricName {
            metric_id: "files".to_owned()
        }
        .message(),
        "metric \"files\" has an empty name"
    );
    assert_eq!(
        ConfigurationError::DuplicateMetricId {
            metric_id: "files".to_owned()
        }
        .message(),
        "metric ID \"files\" is duplicated"
    );
    assert_eq!(
        ConfigurationError::EmptyAttributeKey { key: " ".to_owned() }.message(),
        "operation attribute key \" \" is empty"
    );
    assert_eq!(ConfigurationError::EmptyStageId.message(), "stage ID is empty");
    assert_eq!(ConfigurationError::EmptyStageName.message(), "stage name is empty");
    assert_eq!(
        ConfigurationError::IncompleteStagePosition.message(),
        "stage position and total must be supplied together"
    );
    assert_eq!(
        ConfigurationError::InvalidStagePosition {
            position: 4,
            total: 3
        }
        .message(),
        "stage position 4 is outside 1..=3"
    );
}

#[test]
fn completion_errors_explain_themselves() {
    assert_eq!(
        CompletionError::ActiveWork {
            metric_id: "files".to_owned(),
            active: 2
        }
        .message(),
        "metric \"files\" still has 2 active work items at finish"
    );
    assert_eq!(
        CompletionError::IncompleteTotal {
            metric_id: "files".to_owned(),
            completed: 1,
            total: 3
        }
        .message(),
        "metric \"files\" completed 1 work items but total is 3"
    );
}

#[test]
fn delivery_errors_name_the_event() {
    let error = delivery();
    assert_eq!(
        error.message(),
        "delivery of running event for operation 4 sequence 2 failed: disk full"
    );
    assert_eq!(error.event().sequence(), 2);
    assert_eq!(error.reporter_error().source_error(), "disk full");
    assert_eq!(
        EmissionError::Delivery(delivery()).message(),
        "delivery of running event for operation 4 sequence 2 failed: disk full"
    );
    assert_eq!(
        EmissionError::SequenceExhausted.message(),
        "progress event sequence is exhausted"
    );
}

#[test]
fn start_errors_explain_themselves() {
    assert_eq!(
        StartError::OperationIdExhausted.message(),
        "progress operation IDs are exhausted"
    );
    assert_eq!(
        StartError::InvalidConfiguration(ConfigurationError::DuplicateMetricId {
            metric_id: "x".to_owned()
        })
        .message(),
        "metric ID \"x\" is duplicated"
    );
    assert_eq!(
        StartError::from(ConfigurationError::NoMetrics),
        StartError::InvalidConfiguration(ConfigurationError::NoMetrics)
    );
    assert_eq!(
        StartError::from(EmissionError::SequenceExhausted),
        StartError::OperationIdExhausted
    );
}

#[test]
fn terminal_errors_show_elapsed_time_as_a_duration() {
    let error = TerminalError::new(1_500_000_000, EmissionError::SequenceExhausted);
    assert_eq!(
        error.message(),
        "terminal progress report failed after 1.5s: progress event sequence is exhausted"
    );
    assert_eq!(
        TerminalError::new(250_000, EmissionError::SequenceExhausted).message(),
        "terminal progress report failed after 250µs: progress event sequence is exhausted"
    );
    assert_eq!(error.elapsed(), 1_500_000_000);
    assert_eq!(error.emission_error(), &EmissionError::SequenceExhausted);
    let finish = FinishError::Terminal(TerminalError::new(2_000_000, EmissionError::SequenceExhausted));
    assert_eq!(
        finish.message(),
        "terminal progress report failed after 2ms: progress event sequence is exhausted"
    );
    assert_eq!(finish.elapsed(), 2_000_000);
    assert!(finish.completion_error().is_none());
    let incomplete = FinishError::Incomplete {
        elapsed: 3,
        source: CompletionError::ActiveWork {
            metric_id: "m".to_owned(),
            active: 1,
        },
    };
    assert_eq!(
        incomplete.message(),
        "metric \"m\" still has 1 active work items at finish"
    );
}

#[test]
fn validation_and_progress_errors_explain_themselves() {
    assert_eq!(
        ValidationError::ClassifiedExceedsCompleted {
            metric_id: "m".to_owned()
        }
        .message(),
        "classified counts exceed completed work for metric \"m\""
    );
    assert_eq!(
        ValidationError::CountsExceedTotal {
            metric_id: "m".to_owned()
        }
        .message(),
        "completed plus active work exceeds total for metric \"m\""
    );
    assert_eq!(
        ValidationError::NonZeroCountsForZeroTotal {
            metric_id: "m".to_owned()
        }
        .message(),
        "zero-total metric \"m\" has nonzero counts"
    );
    assert_eq!(
        ValidationError::SequenceExhausted.message(),
        "progress event sequence is exhausted"
    );
    assert_eq!(
        ValidationError::OperationIdExhausted.message(),
        "progress operation IDs are exhausted"
    );
    let from_metric = ProgressError::from(MetricError::Closed {
        metric_id: "m".to_owned(),
    });
    assert_eq!(from_metric.message(), "metric \"m\" is closed");
    let from_report = ProgressError::from(ReportError::message("sink closed"));
    assert_eq!(from_report.message(), "sink closed");
    let from_validation = ProgressError::from(ValidationError::NoMetrics);
    assert_eq!(
        from_validation.message(),
        "a progress operation requires at least one metric"
    );
}
