//! Lifecycle-safe progress reporting for one long-running operation.
//!
//! A progress operation owns the dynamic counts of its configured metrics,
//! validates every state transition and produces complete, immutable events.
//! The library holds the decisions: which transition is admitted, which event
//! is due, what a finished operation must satisfy. Delivery to a reporter,
//! clocks and thread coordination are supplied by the caller.
//!
//! The [`model`] types describe self-contained progress events that carry
//! their own metric schema.

mod duration_text;
mod error;
mod event;
mod event_record;
mod internal;
mod logger_progress_reporter;
mod metric;
pub mod model;
mod no_op_progress_reporter;
mod operation_attributes;
mod progress;
mod progress_counters;
mod text;
mod validation;

pub use duration_text::format_duration;
pub use duration_text::parse_duration;
pub use error::CompletionError;
pub use error::ConfigurationError;
pub use error::DeliveryError;
pub use error::EmissionError;
pub use error::FinishError;
pub use error::MetricError;
pub use error::MetricTransition;
pub use error::ProgressError;
pub use error::ReportError;
pub use error::ReporterError;
pub use error::StartError;
pub use error::TerminalError;
pub use error::ValidationError;
pub use event::Event;
pub use event::Phase;
pub use event_record::EventRecordError;
pub use event_record::elapsed_text;
pub use event_record::read_event_record;
pub use internal::GateLifecycle;
pub use internal::OperationGate;
pub use internal::OperationLifecycle;
pub use logger_progress_reporter::LogLevel;
pub use logger_progress_reporter::LoggerProgressReporter;
pub use logger_progress_reporter::format_event;
pub use metric::Direction;
pub use metric::Metric;
pub use metric::MetricCounts;
pub use metric::MetricDelta;
pub use metric::MetricSnapshot;
pub use model::ProgressCounter;
pub use model::ProgressEvent;
pub use model::ProgressEventBuildError;
pub use model::ProgressEventBuilder;
pub use model::ProgressMetric;
pub use model::ProgressMetricSnapshot;
pub use model::ProgressMetricSnapshotError;
pub use model::ProgressPhase;
pub use model::ProgressSchema;
pub use model::ProgressSchemaError;
pub use model::ProgressStage;
pub use model::ProgressStageError;
pub use no_op_progress_reporter::NoOpProgressReporter;
pub use operation_attributes::OperationAttributes;
pub use progress::DURATION_MAX_NANOS;
pub use progress::Progress;
pub use progress::ProgressBuilder;
pub use progress::next_operation_id;
pub use progress_counters::ProgressCounters;
