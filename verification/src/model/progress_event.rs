//! Immutable self-describing progress events.

use vstd::prelude::*;
use vstd::string::StringExecFns;

use super::{ProgressCounter, ProgressEventBuilder, ProgressMetricSnapshot, ProgressPhase,
    ProgressSchema, ProgressStage};
use super::progress_event_builder::ProgressEventBuilderView;
use super::progress_metric_snapshot::{ProgressMetricSnapshotView, stage_view};
use super::progress_schema::{counter_views, counters_fit, declares};
use super::ProgressCounterView;
use crate::text::text_eq;

verus! {

/// Error produced when progress event counters violate schema constraints.
#[derive(Debug, Clone, PartialEq, Eq)]
pub enum ProgressEventBuildError {
    /// A counter references a metric absent from the event schema.
    UnknownMetricId {
        /// Undeclared metric identifier.
        metric_id: String,
    },
    /// More than one counter references the same metric identifier.
    DuplicateCounterMetricId {
        /// Duplicated counter metric identifier.
        metric_id: String,
    },
}

/// What is wrong with the counter at `i`: 0 for nothing, 1 for an undeclared
/// metric, 2 for a metric an earlier counter already reports.
pub open spec fn counter_fault(
    ms: Seq<(Seq<char>, Seq<char>)>,
    cs: Seq<ProgressCounterView>,
    i: int,
) -> int {
    if !declares(ms, cs[i].metric_id) {
        1
    } else if exists|j: int| 0 <= j < i && (#[trigger] cs[j]).metric_id == cs[i].metric_id {
        2
    } else {
        0
    }
}

/// Whether `e` reports the fault of the counter at `i`.
pub open spec fn counter_fault_error(
    e: ProgressEventBuildError,
    ms: Seq<(Seq<char>, Seq<char>)>,
    cs: Seq<ProgressCounterView>,
    i: int,
) -> bool {
    match e {
        ProgressEventBuildError::UnknownMetricId { metric_id } => counter_fault(ms, cs, i) == 1
            && metric_id@ == cs[i].metric_id,
        ProgressEventBuildError::DuplicateCounterMetricId { metric_id } => counter_fault(ms, cs, i)
            == 2 && metric_id@ == cs[i].metric_id,
    }
}

/// Whether `e` reports the first faulty counter of `cs`.
pub open spec fn reports_first_fault(
    e: ProgressEventBuildError,
    ms: Seq<(Seq<char>, Seq<char>)>,
    cs: Seq<ProgressCounterView>,
) -> bool {
    exists|i: int|
        #![trigger counter_fault_error(e, ms, cs, i)]
        0 <= i < cs.len() && counter_fault_error(e, ms, cs, i) && forall|k: int|
            0 <= k < i ==> counter_fault(ms, cs, k) == 0
}

/// Immutable progress event delivered to reporters.
///
/// Each event carries its schema; every counter names a declared metric, and
/// no metric is counted twice.
#[derive(Debug, PartialEq, Eq)]
pub struct ProgressEvent {
    schema: ProgressSchema,
    phase: ProgressPhase,
    stage: Option<ProgressStage>,
    counters: Vec<ProgressCounter>,
    elapsed: u128,
}

impl View for ProgressEvent {
    type V = ProgressEventBuilderView;

    closed spec fn view(&self) -> ProgressEventBuilderView {
        ProgressEventBuilderView {
            schema: self.schema@,
            phase: self.phase,
            counters: counter_views(self.counters@),
            stage: stage_view(self.stage),
            elapsed: self.elapsed,
        }
    }
}

/// Checks counter membership and uniqueness against a schema.
fn check_counters(schema: &ProgressSchema, counters: &[ProgressCounter]) -> (r: Result<
    (),
    ProgressEventBuildError,
>)
    ensures
        r is Ok <==> counters_fit(schema@, counter_views(counters@)),
        r is Err ==> reports_first_fault(r->Err_0, schema@, counter_views(counters@)),
{
    let ghost cs = counter_views(counters@);
    let n = counters.len();
    let mut i: usize = 0;
    while i < n
        invariant
            n == counters@.len(),
            cs == counter_views(counters@),
            i <= n,
            forall|k: int| 0 <= k < i ==> counter_fault(schema@, cs, k) == 0,
        decreases n - i,
    {
        assert(cs[i as int] == counters@[i as int]@);
        let metric_id = counters[i].metric_id();
        if !schema.contains_metric(metric_id) {
            let e = ProgressEventBuildError::UnknownMetricId { metric_id: metric_id.to_owned() };
            assert(counter_fault_error(e, schema@, cs, i as int));
            assert(reports_first_fault(e, schema@, cs));
            return Err(e);
        }
        let mut j: usize = 0;
        while j < i
            invariant
                n == counters@.len(),
                cs == counter_views(counters@),
                i < n,
                j <= i,
                metric_id@ == cs[i as int].metric_id,
                declares(schema@, cs[i as int].metric_id),
                forall|k: int| 0 <= k < i ==> counter_fault(schema@, cs, k) == 0,
                forall|k: int| 0 <= k < j ==> (#[trigger] cs[k]).metric_id != cs[i as int].metric_id,
            decreases i - j,
        {
            if text_eq(counters[j].metric_id(), metric_id) {
                assert(cs[j as int].metric_id == cs[i as int].metric_id);
                assert(counter_fault(schema@, cs, i as int) == 2);
                let e = ProgressEventBuildError::DuplicateCounterMetricId {
                    metric_id: metric_id.to_owned(),
                };
                assert(counter_fault_error(e, schema@, cs, i as int));
                assert(reports_first_fault(e, schema@, cs));
                return Err(e);
            }
            j = j + 1;
        }
        assert(counter_fault(schema@, cs, i as int) == 0);
        i = i + 1;
    }
    assert forall|a: int, b: int| 0 <= a < b < cs.len() implies (#[trigger] cs[a]).metric_id
        != (#[trigger] cs[b]).metric_id by {
        assert(counter_fault(schema@, cs, b) == 0);
    }
    assert forall|a: int| 0 <= a < cs.len() implies declares(schema@, (#[trigger] cs[a]).metric_id) by {
        assert(counter_fault(schema@, cs, a) == 0);
    }
    Ok(())
}

impl ProgressEvent {
    /// Counters fit the schema.
    #[verifier::type_invariant]
    closed spec fn fits(&self) -> bool {
        counters_fit(self.schema@, counter_views(self.counters@))
    }

    /// Creates a progress event builder for a schema.
    pub fn builder(schema: ProgressSchema) -> (b: ProgressEventBuilder)
        ensures
            b@ == (ProgressEventBuilderView {
                schema: schema@,
                phase: ProgressPhase::Running,
                counters: Seq::empty(),
                stage: None,
                elapsed: 0,
            }),
    {
        ProgressEventBuilder::new(schema)
    }

    /// Creates a progress event from a builder whose counters fit its schema.
    pub fn new(builder: ProgressEventBuilder) -> (e: Self)
        requires
            counters_fit(builder@.schema, builder@.counters),
        ensures
            e@ == builder@,
    {
        let (schema, phase, stage, counters, elapsed) = builder.into_parts();
        ProgressEvent { schema, phase, stage, counters, elapsed }
    }

    /// Tries to create a progress event from a builder.
    ///
    /// Fails for the first counter, in order, that names an undeclared metric
    /// or a metric an earlier counter already reports.
    pub fn try_new(builder: ProgressEventBuilder) -> (r: Result<Self, ProgressEventBuildError>)
        ensures
            r is Ok <==> counters_fit(builder@.schema, builder@.counters),
            r matches Ok(e) ==> e@ == builder@,
            r is Err ==> reports_first_fault(r->Err_0, builder@.schema, builder@.counters),
    {
        let (schema, phase, stage, counters, elapsed) = builder.into_parts();
        match check_counters(&schema, counters.as_slice()) {
            Ok(()) => Ok(ProgressEvent { schema, phase, stage, counters, elapsed }),
            Err(e) => Err(e),
        }
    }

    /// Creates a progress event for the supplied lifecycle phase.
    pub fn from_phase(
        schema: ProgressSchema,
        phase: ProgressPhase,
        counters: Vec<ProgressCounter>,
        elapsed: u128,
    ) -> (e: Self)
        requires
            counters_fit(schema@, counter_views(counters@)),
        ensures
            e@ == (ProgressEventBuilderView {
                schema: schema@,
                phase,
                counters: counter_views(counters@),
                stage: None,
                elapsed,
            }),
    {
        ProgressEvent::builder(schema).phase(phase).counters(counters).elapsed(elapsed).build()
    }

    /// Creates a started progress event.
    pub fn started(schema: ProgressSchema, counters: Vec<ProgressCounter>, elapsed: u128) -> (e: Self)
        requires
            counters_fit(schema@, counter_views(counters@)),
        ensures
            e@ == (ProgressEventBuilderView {
                schema: schema@,
                phase: ProgressPhase::Started,
                counters: counter_views(counters@),
                stage: None,
                elapsed,
            }),
    {
        ProgressEvent::from_phase(schema, ProgressPhase::Started, counters, elapsed)
    }

    /// Creates a running progress event.
    pub fn running(schema: ProgressSchema, counters: Vec<ProgressCounter>, elapsed: u128) -> (e: Self)
        requires
            counters_fit(schema@, counter_views(counters@)),
        ensures
            e@ == (ProgressEventBuilderView {
                schema: schema@,
                phase: ProgressPhase::Running,
                counters: counter_views(counters@),
                stage: None,
                elapsed,
            }),
    {
        ProgressEvent::from_phase(schema, ProgressPhase::Running, counters, elapsed)
    }

    /// Creates a finished progress event.
    pub fn finished(schema: ProgressSchema, counters: Vec<ProgressCounter>, elapsed: u128) -> (e: Self)
        requires
            counters_fit(schema@, counter_views(counters@)),
        ensures
            e@ == (ProgressEventBuilderView {
                schema: schema@,
                phase: ProgressPhase::Finished,
                counters: counter_views(counters@),
                stage: None,
                elapsed,
            }),
    {
        ProgressEvent::from_phase(schema, ProgressPhase::Finished, counters, elapsed)
    }

    /// Creates a failed progress event.
    pub fn failed(schema: ProgressSchema, counters: Vec<ProgressCounter>, elapsed: u128) -> (e: Self)
        requires
            counters_fit(schema@, counter_views(counters@)),
        ensures
            e@ == (ProgressEventBuilderView {
                schema: schema@,
                phase: ProgressPhase::Failed,
                counters: counter_views(counters@),
                stage: None,
                elapsed,
            }),
    {
        ProgressEvent::from_phase(schema, ProgressPhase::Failed, counters, elapsed)
    }

    /// Creates a canceled progress event.
    pub fn canceled(schema: ProgressSchema, counters: Vec<ProgressCounter>, elapsed: u128) -> (e: Self)
        requires
            counters_fit(schema@, counter_views(counters@)),
        ensures
            e@ == (ProgressEventBuilderView {
                schema: schema@,
                phase: ProgressPhase::Canceled,
                counters: counter_views(counters@),
                stage: None,
                elapsed,
            }),
    {
        ProgressEvent::from_phase(schema, ProgressPhase::Canceled, counters, elapsed)
    }

    /// Returns a copy configured with the current stage.
    pub fn with_stage(self, stage: ProgressStage) -> (e: Self)
        ensures
            e@ == (ProgressEventBuilderView { stage: Some(stage@), ..self@ }),
    {
        proof {
            use_type_invariant(&self);
        }
        ProgressEvent { stage: Some(stage), ..self }
    }

    /// Returns the event schema.
    pub fn schema(&self) -> (s: &ProgressSchema)
        ensures
            s@ == self@.schema,
    {
        &self.schema
    }

    /// Returns the event phase.
    pub fn phase(&self) -> (p: ProgressPhase)
        ensures
            p == self@.phase,
    {
        self.phase
    }

    /// Returns the current stage when known.
    pub fn stage(&self) -> (s: Option<&ProgressStage>)
        ensures
            match s {
                Some(st) => self@.stage == Some(st@),
                None => self@.stage is None,
            },
    {
        match &self.stage {
            Some(st) => Some(st),
            None => None,
        }
    }

    /// Returns the progress counters.
    pub fn counters(&self) -> (cs: &[ProgressCounter])
        ensures
            counter_views(cs@) == self@.counters,
            counters_fit(self@.schema, self@.counters),
    {
        proof {
            use_type_invariant(self);
        }
        self.counters.as_slice()
    }

    /// Finds a counter by metric ID.
    pub fn counter(&self, metric_id: &str) -> (c: Option<&ProgressCounter>)
        ensures
            c is Some <==> exists|i: int|
                0 <= i < self@.counters.len() && (#[trigger] self@.counters[i]).metric_id
                    == metric_id@,
            c matches Some(ct) ==> ct@.metric_id == metric_id@ && self@.counters.contains(ct@),
    {
        let n = self.counters.len();
        let mut i: usize = 0;
        while i < n
            invariant
                n == self.counters@.len(),
                self@.counters == counter_views(self.counters@),
                i <= n,
                forall|k: int| 0 <= k < i ==> (#[trigger] self@.counters[k]).metric_id != metric_id@,
            decreases n - i,
        {
            if text_eq(self.counters[i].metric_id(), metric_id) {
                assert(self@.counters[i as int] == self.counters@[i as int]@);
                return Some(&self.counters[i]);
            }
            i = i + 1;
        }
        None
    }

    /// Creates one snapshot per counter, flattening it with the event phase,
    /// stage, elapsed time and the metric definition its ID names.
    pub fn metric_snapshots(&self) -> (v: Vec<ProgressMetricSnapshot>)
        ensures
            v@.len() == self@.counters.len(),
            forall|i: int|
                0 <= i < v@.len() ==> {
                    let s = (#[trigger] v@[i])@;
                    let c = self@.counters[i];
                    &&& s.metric.0 == c.metric_id
                    &&& self@.schema.contains(s.metric)
                    &&& s.phase == self@.phase
                    &&& s.stage == self@.stage
                    &&& s.total == c.total
                    &&& s.completed == c.completed
                    &&& s.active == c.active
                    &&& s.succeeded == c.succeeded
                    &&& s.failed == c.failed
                    &&& s.elapsed == self@.elapsed
                },
    {
        proof {
            use_type_invariant(self);
        }
        let n = self.counters.len();
        let mut v: Vec<ProgressMetricSnapshot> = Vec::new();
        let mut i: usize = 0;
        while i < n
            invariant
                n == self.counters@.len(),
                self@.counters == counter_views(self.counters@),
                counters_fit(self@.schema, self@.counters),
                i <= n,
                v@.len() == i,
                forall|k: int|
                    0 <= k < i ==> {
                        let s = (#[trigger] v@[k])@;
                        let c = self@.counters[k];
                        &&& s.metric.0 == c.metric_id
                        &&& self@.schema.contains(s.metric)
                        &&& s.phase == self@.phase
                        &&& s.stage == self@.stage
                        &&& s.total == c.total
                        &&& s.completed == c.completed
                        &&& s.active == c.active
                        &&& s.succeeded == c.succeeded
                        &&& s.failed == c.failed
                        &&& s.elapsed == self@.elapsed
                    },
            decreases n - i,
        {
            let counter = &self.counters[i];
            assert(self@.counters[i as int] == counter@);
            assert(declares(self@.schema, counter@.metric_id));
            let metric = match self.schema.metric(counter.metric_id()) {
                Some(m) => m.clone(),
                None => {
                    proof {
                        assert(false);
                    }
                    return v;
                },
            };
            let stage = match &self.stage {
                Some(st) => Some(st.clone()),
                None => None,
            };
            let s = ProgressMetricSnapshot::new(metric, self.phase, stage, counter, self.elapsed);
            v.push(s);
            i = i + 1;
        }
        v
    }

    /// Returns the elapsed time, in nanoseconds.
    pub fn elapsed(&self) -> (n: u128)
        ensures
            n == self@.elapsed,
    {
        self.elapsed
    }
}

/// The explanation of an event build failure.
pub open spec fn build_error_text(e: ProgressEventBuildError) -> Seq<char> {
    match e {
        ProgressEventBuildError::UnknownMetricId { metric_id } => "unknown progress metric id: "@
            + metric_id@,
        ProgressEventBuildError::DuplicateCounterMetricId { metric_id } =>
            "duplicate progress counter metric id: "@ + metric_id@,
    }
}

impl ProgressEventBuildError {
    /// Explains the build failure.
    pub fn message(&self) -> (m: String)
        ensures
            m@ == build_error_text(*self),
    {
        match self {
            ProgressEventBuildError::UnknownMetricId { metric_id } => {
                let mut m = String::from_str("unknown progress metric id: ");
                m.append(metric_id.as_str());
                m
            },
            ProgressEventBuildError::DuplicateCounterMetricId { metric_id } => {
                let mut m = String::from_str("duplicate progress counter metric id: ");
                m.append(metric_id.as_str());
                m
            },
        }
    }
}

} // verus!
