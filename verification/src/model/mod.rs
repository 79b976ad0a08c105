//! Self-describing progress event data model.
//!
//! A [`ProgressSchema`] declares metrics by stable ID; a [`ProgressEvent`]
//! carries its schema with one [`ProgressCounter`] per reported metric.

mod progress_counter;
mod progress_event;
mod progress_event_builder;
mod progress_metric;
mod progress_metric_snapshot;
mod progress_phase;
mod progress_schema;
mod progress_stage;

pub use progress_counter::ProgressCounter;
pub use progress_counter::ProgressCounterView;
pub use progress_event::ProgressEvent;
pub use progress_event::ProgressEventBuildError;
pub use progress_event_builder::ProgressEventBuilder;
pub use progress_metric::ProgressMetric;
pub use progress_metric_snapshot::ProgressMetricSnapshot;
pub use progress_metric_snapshot::ProgressMetricSnapshotError;
pub use progress_phase::ProgressPhase;
pub use progress_phase::progress_phase_name;
pub use progress_schema::ProgressSchema;
pub use progress_schema::ProgressSchemaError;
pub use progress_stage::ProgressStage;
pub use progress_stage::ProgressStageError;
