//! Flattened per-metric records of self-describing progress events.

use vstd::prelude::*;
use vstd::string::StringExecFns;

use super::{ProgressCounter, ProgressMetric, ProgressPhase, ProgressStage};
use super::progress_counter::{remaining, remaining_of};
use super::progress_stage::ProgressStageView;

verus! {

/// Error produced when metric metadata and counter values do not correspond.
#[derive(Debug, Clone, PartialEq, Eq)]
pub enum ProgressMetricSnapshotError {
    /// The metric and counter carry different stable identifiers.
    MetricIdMismatch {
        /// Identifier carried by the metric metadata.
        metric_id: String,
        /// Identifier carried by the counter.
        counter_metric_id: String,
    },
}

/// Abstract content of a [`ProgressMetricSnapshot`].
pub struct ProgressMetricSnapshotView {
    /// Metric metadata: identifier and display name.
    pub metric: (Seq<char>, Seq<char>),
    /// Lifecycle phase inherited from the source event.
    pub phase: ProgressPhase,
    /// Stage inherited from the source event.
    pub stage: Option<ProgressStageView>,
    /// Total work-unit count when known.
    pub total: Option<u64>,
    /// Completed work-unit count.
    pub completed: u64,
    /// Active work-unit count.
    pub active: u64,
    /// Successful work-unit count.
    pub succeeded: u64,
    /// Failed work-unit count.
    pub failed: u64,
    /// Elapsed time inherited from the source event, in nanoseconds.
    pub elapsed: u128,
}

/// The view of an optional stage.
pub open spec fn stage_view(s: Option<ProgressStage>) -> Option<ProgressStageView> {
    match s {
        Some(st) => Some(st@),
        None => None,
    }
}

/// Snapshot of one metric counter within a progress event.
///
/// Flattens one counter together with the event-level phase, stage and
/// elapsed time.
#[derive(Debug, PartialEq, Eq)]
pub struct ProgressMetricSnapshot {
    metric: ProgressMetric,
    phase: ProgressPhase,
    stage: Option<ProgressStage>,
    total_count: Option<u64>,
    completed_count: u64,
    active_count: u64,
    succeeded_count: u64,
    failed_count: u64,
    elapsed: u128,
}

impl View for ProgressMetricSnapshot {
    type V = ProgressMetricSnapshotView;

    closed spec fn view(&self) -> ProgressMetricSnapshotView {
        ProgressMetricSnapshotView {
            metric: self.metric@,
            phase: self.phase,
            stage: stage_view(self.stage),
            total: self.total_count,
            completed: self.completed_count,
            active: self.active_count,
            succeeded: self.succeeded_count,
            failed: self.failed_count,
            elapsed: self.elapsed,
        }
    }
}

impl ProgressMetricSnapshot {
    /// Creates a metric snapshot from explicit values.
    pub fn new(
        metric: ProgressMetric,
        phase: ProgressPhase,
        stage: Option<ProgressStage>,
        counter: &ProgressCounter,
        elapsed: u128,
    ) -> (s: Self)
        ensures
            s@ == (ProgressMetricSnapshotView {
                metric: metric@,
                phase,
                stage: stage_view(stage),
                total: counter@.total,
                completed: counter@.completed,
                active: counter@.active,
                succeeded: counter@.succeeded,
                failed: counter@.failed,
                elapsed,
            }),
    {
        ProgressMetricSnapshot {
            metric,
            phase,
            stage,
            total_count: counter.total_count(),
            completed_count: counter.completed_count(),
            active_count: counter.active_count(),
            succeeded_count: counter.succeeded_count(),
            failed_count: counter.failed_count(),
            elapsed,
        }
    }

    /// Returns the complete metric metadata.
    pub fn metric(&self) -> (m: &ProgressMetric)
        ensures
            m@ == self@.metric,
    {
        &self.metric
    }

    /// Returns the stable metric ID.
    pub fn metric_id(&self) -> (id: &str)
        ensures
            id@ == self@.metric.0,
    {
        self.metric.id()
    }

    /// Returns the human-readable metric name.
    pub fn metric_name(&self) -> (name: &str)
        ensures
            name@ == self@.metric.1,
    {
        self.metric.name()
    }

    /// Returns the lifecycle phase.
    pub fn phase(&self) -> (p: ProgressPhase)
        ensures
            p == self@.phase,
    {
        self.phase
    }

    /// Returns the optional stage.
    pub fn stage(&self) -> (s: Option<&ProgressStage>)
        ensures
            match s {
                Some(st) => self@.stage == Some(st@),
                None => self@.stage is None,
            },
    {
        match &self.stage {
            Some(st) => Some(st),
            None => None,
        }
    }

    /// Returns the total work-unit count when known.
    pub fn total_count(&self) -> (n: Option<u64>)
        ensures
            n == self@.total,
    {
        self.total_count
    }

    /// Returns the completed work-unit count.
    pub fn completed_count(&self) -> (n: u64)
        ensures
            n == self@.completed,
    {
        self.completed_count
    }

    /// Returns the active work-unit count.
    pub fn active_count(&self) -> (n: u64)
        ensures
            n == self@.active,
    {
        self.active_count
    }

    /// Returns the successful work-unit count.
    pub fn succeeded_count(&self) -> (n: u64)
        ensures
            n == self@.succeeded,
    {
        self.succeeded_count
    }

    /// Returns the failed work-unit count.
    pub fn failed_count(&self) -> (n: u64)
        ensures
            n == self@.failed,
    {
        self.failed_count
    }

    /// Returns `total - completed - active`, saturating at zero, when the
    /// total count is known.
    pub fn remaining_count(&self) -> (n: Option<u64>)
        ensures
            n == remaining_of(self@.total, self@.completed, self@.active),
    {
        remaining(self.total_count, self.completed_count, self.active_count)
    }

    /// Returns the elapsed time, in nanoseconds.
    pub fn elapsed(&self) -> (n: u128)
        ensures
            n == self@.elapsed,
    {
        self.elapsed
    }
}

/// The explanation of a snapshot failure.
pub open spec fn snapshot_error_text(e: ProgressMetricSnapshotError) -> Seq<char> {
    match e {
        ProgressMetricSnapshotError::MetricIdMismatch { metric_id, counter_metric_id } =>
            "progress metric id "@ + metric_id@ + " does not match counter metric id "@
            + counter_metric_id@,
    }
}

impl ProgressMetricSnapshotError {
    /// Explains the snapshot failure.
    pub fn message(&self) -> (m: String)
        ensures
            m@ == snapshot_error_text(*self),
    {
        match self {
            ProgressMetricSnapshotError::MetricIdMismatch { metric_id, counter_metric_id } => {
                let mut m = String::from_str("progress metric id ");
                m.append(metric_id.as_str());
                m.append(" does not match counter metric id ");
                m.append(counter_metric_id.as_str());
                m
            },
        }
    }
}

} // verus!
