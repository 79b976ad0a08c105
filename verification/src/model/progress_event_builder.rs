//! Builder for self-describing progress events.

use vstd::prelude::*;

use super::{ProgressCounter, ProgressCounterView, ProgressEvent, ProgressEventBuildError,
    ProgressPhase, ProgressSchema, ProgressStage};
use super::progress_metric_snapshot::stage_view;
use super::progress_schema::{counter_views, counters_fit};
use super::progress_counter::zeroed_counter;
use super::progress_stage::ProgressStageView;

verus! {

/// Abstract content of a [`ProgressEventBuilder`].
pub struct ProgressEventBuilderView {
    /// Schema carried by the event being built.
    pub schema: Seq<(Seq<char>, Seq<char>)>,
    /// Lifecycle phase of the event being built.
    pub phase: ProgressPhase,
    /// Counters of the event being built.
    pub counters: Seq<ProgressCounterView>,
    /// Current stage.
    pub stage: Option<ProgressStageView>,
    /// Elapsed time in nanoseconds.
    pub elapsed: u128,
}

/// Builder for [`ProgressEvent`].
#[derive(Debug, PartialEq, Eq)]
pub struct ProgressEventBuilder {
    pub(crate) schema: ProgressSchema,
    pub(crate) phase: ProgressPhase,
    pub(crate) counters: Vec<ProgressCounter>,
    pub(crate) stage: Option<ProgressStage>,
    pub(crate) elapsed: u128,
}

impl View for ProgressEventBuilder {
    type V = ProgressEventBuilderView;

    closed spec fn view(&self) -> ProgressEventBuilderView {
        ProgressEventBuilderView {
            schema: self.schema@,
            phase: self.phase,
            counters: counter_views(self.counters@),
            stage: stage_view(self.stage),
            elapsed: self.elapsed,
        }
    }
}

impl ProgressEventBuilder {
    /// Creates a builder for a schema: running, no counters, no stage, zero
    /// elapsed time.
    pub fn new(schema: ProgressSchema) -> (b: Self)
        ensures
            b@ == (ProgressEventBuilderView {
                schema: schema@,
                phase: ProgressPhase::Running,
                counters: Seq::empty(),
                stage: None,
                elapsed: 0,
            }),
    {
        let b = ProgressEventBuilder {
            schema,
            phase: ProgressPhase::Running,
            counters: Vec::new(),
            stage: None,
            elapsed: 0,
        };
        assert(b@.counters =~= Seq::<ProgressCounterView>::empty());
        b
    }

    /// Configures the lifecycle phase.
    pub fn phase(self, phase: ProgressPhase) -> (b: Self)
        ensures
            b@ == (ProgressEventBuilderView { phase, ..self@ }),
    {
        ProgressEventBuilder { phase, ..self }
    }

    /// Configures the event as started.
    pub fn started(self) -> (b: Self)
        ensures
            b@ == (ProgressEventBuilderView { phase: ProgressPhase::Started, ..self@ }),
    {
        self.phase(ProgressPhase::Started)
    }

    /// Configures the event as running.
    pub fn running(self) -> (b: Self)
        ensures
            b@ == (ProgressEventBuilderView { phase: ProgressPhase::Running, ..self@ }),
    {
        self.phase(ProgressPhase::Running)
    }

    /// Configures the event as finished.
    pub fn finished(self) -> (b: Self)
        ensures
            b@ == (ProgressEventBuilderView { phase: ProgressPhase::Finished, ..self@ }),
    {
        self.phase(ProgressPhase::Finished)
    }

    /// Configures the event as failed.
    pub fn failed(self) -> (b: Self)
        ensures
            b@ == (ProgressEventBuilderView { phase: ProgressPhase::Failed, ..self@ }),
    {
        self.phase(ProgressPhase::Failed)
    }

    /// Configures the event as canceled.
    pub fn canceled(self) -> (b: Self)
        ensures
            b@ == (ProgressEventBuilderView { phase: ProgressPhase::Canceled, ..self@ }),
    {
        self.phase(ProgressPhase::Canceled)
    }

    /// Replaces the current counter list.
    pub fn counters(self, counters: Vec<ProgressCounter>) -> (b: Self)
        ensures
            b@ == (ProgressEventBuilderView { counters: counter_views(counters@), ..self@ }),
    {
        ProgressEventBuilder { counters, ..self }
    }

    /// Appends one counter for `metric_id`, filled in by `configure`.
    pub fn counter<F>(self, metric_id: &str, configure: F) -> (b: Self)
        where
            F: FnOnce(ProgressCounter) -> ProgressCounter,
        requires
            forall|c: ProgressCounter| configure.requires((c,)),
        ensures
            exists|c: ProgressCounter, out: ProgressCounter|
                c@ == zeroed_counter(metric_id@) && configure.ensures((c,), out)
                    && b@ == (ProgressEventBuilderView {
                    counters: self@.counters.push(out@),
                    ..self@
                }),
    {
        let counter = ProgressCounter::new(metric_id);
        let out = configure(counter);
        self.add_counter(out)
    }

    /// Appends a prebuilt counter.
    pub fn add_counter(self, counter: ProgressCounter) -> (b: Self)
        ensures
            b@ == (ProgressEventBuilderView { counters: self@.counters.push(counter@), ..self@ }),
    {
        let mut counters = self.counters;
        let ghost before = counters@;
        counters.push(counter);
        assert(counter_views(counters@) =~= counter_views(before).push(counter@));
        ProgressEventBuilder { counters, ..self }
    }

    /// Configures the current stage.
    pub fn stage(self, stage: ProgressStage) -> (b: Self)
        ensures
            b@ == (ProgressEventBuilderView { stage: Some(stage@), ..self@ }),
    {
        ProgressEventBuilder { stage: Some(stage), ..self }
    }

    /// Configures the current stage from an ID and display name.
    pub fn stage_named(self, id: &str, name: &str) -> (b: Self)
        ensures
            b@ == (ProgressEventBuilderView {
                stage: Some(ProgressStageView {
                    id: id@,
                    name: name@,
                    index: None,
                    total_stages: None,
                    weight_bits: None,
                }),
                ..self@
            }),
    {
        self.stage(ProgressStage::new(id, name))
    }

    /// Configures the elapsed time, in nanoseconds.
    pub fn elapsed(self, elapsed: u128) -> (b: Self)
        ensures
            b@ == (ProgressEventBuilderView { elapsed, ..self@ }),
    {
        ProgressEventBuilder { elapsed, ..self }
    }

    /// Splits the builder into schema, phase, stage, counters and elapsed time.
    pub(crate) fn into_parts(self) -> (parts: (
        ProgressSchema,
        ProgressPhase,
        Option<ProgressStage>,
        Vec<ProgressCounter>,
        u128,
    ))
        ensures
            parts.0@ == self@.schema,
            parts.1 == self@.phase,
            stage_view(parts.2) == self@.stage,
            counter_views(parts.3@) == self@.counters,
            parts.4 == self@.elapsed,
    {
        (self.schema, self.phase, self.stage, self.counters, self.elapsed)
    }

    /// Builds the progress event from counters that fit the schema.
    pub fn build(self) -> (e: ProgressEvent)
        requires
            counters_fit(self@.schema, self@.counters),
        ensures
            e@ == self@,
    {
        ProgressEvent::new(self)
    }
}

} // verus!
