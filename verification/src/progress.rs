//! Operation lifecycle, metric state and report scheduling.
//!
//! [`Progress`] holds every decision of one operation: which metric update is
//! admitted, which event is emitted next and with which sequence, when a
//! running report is due and what a successful finish requires. The caller
//! supplies elapsed times and delivers the returned events to its reporter.

use vstd::prelude::*;

use crate::error::{
    CompletionError, ConfigurationError, EmissionError, FinishError, MetricError, MetricTransition,
    StartError, TerminalError,
};
use crate::error::completion_error::completion_error_subject;
use crate::event::{Event, EventView, Phase};
use crate::internal::{GateLifecycle, OperationGate};
use crate::metric::{
    Direction, Metric, MetricCounts, MetricDelta, MetricSnapshot, MetricSnapshotView, MetricView,
    TransitionVerdict, completed_of, counts_within, delta_error_matches, delta_verdict,
    error_matches_verdict,
    snapshot_of, transition_verdict,
};
use crate::operation_attributes::OperationAttributes;
use crate::text::text_eq;
use crate::validation::{
    configuration_error_of, lemma_valid_metrics_distinct, metric_views, metrics_valid,
    validate_attributes, validate_metrics,
};

verus! {

/// The largest duration, in nanoseconds, that elapsed times and intervals take.
pub const DURATION_MAX_NANOS: u128 = 18446744073709551615999999999u128;

/// The value the operation identifier counter takes after handing out
/// `current`: the next integer, or zero (exhausted) after the largest.
pub open spec fn next_counter(current: u64) -> u64 {
    if current == 0 || current == u64::MAX {
        0
    } else {
        (current + 1) as u64
    }
}

/// The counter value after `k` allocations starting from `start`.
pub open spec fn counter_after(start: u64, k: nat) -> u64
    decreases k,
{
    if k == 0 {
        start
    } else {
        next_counter(counter_after(start, (k - 1) as nat))
    }
}

/// Identifiers handed out by successive allocations are nonzero and strictly
/// increasing, so none is handed out twice: if the `j`-th allocation from
/// `start` succeeds, so did every earlier one, with a smaller identifier.
pub proof fn lemma_operation_ids_never_reused(start: u64, i: nat, j: nat)
    requires
        i < j,
        counter_after(start, j) != 0,
    ensures
        counter_after(start, i) != 0,
        counter_after(start, i) < counter_after(start, j),
    decreases j,
{
    let prev = counter_after(start, (j - 1) as nat);
    assert(counter_after(start, j) == next_counter(prev));
    assert(prev != 0);
    if i < j - 1 {
        lemma_operation_ids_never_reused(start, i, (j - 1) as nat);
    }
}

/// Allocates one operation identifier from the process-wide counter value
/// `current`, returning the identifier and the counter's next value.
///
/// Identifiers are nonzero and never reused: after the largest identifier the
/// counter stays at zero, which reports exhaustion.
pub fn next_operation_id(current: u64) -> (r: Result<(u64, u64), StartError>)
    ensures
        current == 0 ==> r == Err::<(u64, u64), StartError>(StartError::OperationIdExhausted),
        current != 0 ==> r == Ok::<(u64, u64), StartError>((current, next_counter(current))),
{
    if current == 0 {
        return Err(StartError::OperationIdExhausted);
    }
    let next = match current.checked_add(1) {
        Some(n) => n,
        None => 0,
    };
    Ok((current, next))
}

/// A configured metric together with its live counts.
#[derive(Debug)]
struct LiveMetric {
    metric: Metric,
    counts: MetricCounts,
}

/// Abstract state of a [`Progress`] operation.
pub struct ProgressView {
    /// Whether events are produced.
    pub enabled: bool,
    /// Configured metrics with their live counts, in declaration order.
    pub metrics: Seq<(MetricView, MetricCounts)>,
    /// Lifecycle of the operation gate.
    pub lifecycle: GateLifecycle,
    /// Correlation attributes carried by every event.
    pub attributes: Map<Seq<char>, Seq<char>>,
    /// Minimum spacing of due-based running reports, in nanoseconds.
    pub interval: u128,
    /// Elapsed time at which the next due-based report falls due.
    pub next_due: Option<u128>,
    /// Nonzero identifier of an enabled operation.
    pub operation_id: Option<u64>,
    /// Sequence reserved for the next event.
    pub next_sequence: u64,
}

/// The snapshots that live metrics describe.
pub open spec fn snapshots_of(ms: Seq<(MetricView, MetricCounts)>) -> Seq<MetricSnapshotView> {
    ms.map_values(|p: (MetricView, MetricCounts)| snapshot_of(p.0, p.1))
}

/// The metadata of live metrics.
pub open spec fn definitions_of(ms: Seq<(MetricView, MetricCounts)>) -> Seq<MetricView> {
    ms.map_values(|p: (MetricView, MetricCounts)| p.0)
}

/// The deadline that `elapsed` plus `interval` gives, if it is representable.
pub open spec fn deadline_after(elapsed: u128, interval: u128) -> Option<u128> {
    if elapsed + interval <= DURATION_MAX_NANOS {
        Some((elapsed + interval) as u128)
    } else {
        None
    }
}

/// What keeps a metric from a checked successful finish: 0 for nothing, 1 for
/// active work, 2 for a known total that completed work has not reached.
pub open spec fn finish_fault(m: (MetricView, MetricCounts)) -> int {
    if m.1.active != 0 {
        1
    } else if m.0.total is Some && completed_of(m.1) != m.0.total->0 {
        2
    } else {
        0
    }
}

/// Whether `e` reports the finish fault of `m`.
pub open spec fn finish_fault_error(e: CompletionError, m: (MetricView, MetricCounts)) -> bool {
    if finish_fault(m) == 1 {
        match e {
            CompletionError::ActiveWork { metric_id, active } => metric_id@ == m.0.id && active
                == m.1.active,
            _ => false,
        }
    } else if finish_fault(m) == 2 {
        match e {
            CompletionError::IncompleteTotal { metric_id, completed, total } => metric_id@ == m.0.id
                && completed == completed_of(m.1) && total == m.0.total->0,
            _ => false,
        }
    } else {
        false
    }
}

/// Whether every metric admits a checked successful finish.
pub open spec fn finish_ready(ms: Seq<(MetricView, MetricCounts)>) -> bool {
    forall|i: int| 0 <= i < ms.len() ==> finish_fault(#[trigger] ms[i]) == 0
}

/// Whether a metric's work is settled for a checked successful finish: no
/// active work, and where a total is known, the unclassified, succeeded,
/// failed and cancelled counts together reach it exactly.
pub open spec fn work_settled(m: (MetricView, MetricCounts)) -> bool {
    &&& m.1.active == 0
    &&& m.0.total is Some ==> m.1.completed_unclassified + m.1.succeeded + m.1.failed
        + m.1.cancelled == m.0.total->0
}

/// A checked finish is admitted exactly when every metric's work is settled:
/// failed and cancelled work count toward a known total as much as
/// successful work does.
pub proof fn lemma_finish_ready_iff_settled(ms: Seq<(MetricView, MetricCounts)>)
    ensures
        finish_ready(ms) <==> forall|i: int| 0 <= i < ms.len() ==> work_settled(#[trigger] ms[i]),
{
    if finish_ready(ms) {
        assert forall|i: int| 0 <= i < ms.len() implies work_settled(#[trigger] ms[i]) by {
            assert(finish_fault(ms[i]) == 0);
        }
    }
    if forall|i: int| 0 <= i < ms.len() ==> work_settled(#[trigger] ms[i]) {
        assert forall|i: int| 0 <= i < ms.len() implies finish_fault(#[trigger] ms[i]) == 0 by {
            assert(work_settled(ms[i]));
        }
    }
}

/// A refused checked finish names a metric whose work is not settled, and
/// reports it truly: active work is nonzero, or the reported completed work
/// is the sum of the four terminal counts and falls short of or exceeds the
/// known total. Every metric before it is settled.
pub proof fn lemma_finish_refusal_is_accurate(e: CompletionError, ms: Seq<(MetricView, MetricCounts)>)
    requires
        first_finish_fault(e, ms),
    ensures
        exists|i: int|
            #![trigger ms[i]]
            0 <= i < ms.len() && ms[i].0.id == completion_error_subject(e) && !work_settled(ms[i])
                && (forall|j: int| 0 <= j < i ==> work_settled(#[trigger] ms[j])) && match e {
                CompletionError::ActiveWork { active, .. } => active == ms[i].1.active && active != 0,
                CompletionError::IncompleteTotal { completed, total, .. } => {
                    &&& ms[i].1.active == 0
                    &&& ms[i].0.total == Some(total)
                    &&& completed == ms[i].1.completed_unclassified + ms[i].1.succeeded
                        + ms[i].1.failed + ms[i].1.cancelled
                    &&& completed != total
                },
            },
{
    let i = choose|i: int|
        0 <= i < ms.len() && finish_fault(#[trigger] ms[i]) != 0 && finish_fault_error(e, ms[i])
            && forall|j: int| 0 <= j < i ==> finish_fault(#[trigger] ms[j]) == 0;
    assert forall|j: int| 0 <= j < i implies work_settled(#[trigger] ms[j]) by {
        assert(finish_fault(ms[j]) == 0);
    }
}

/// Whether `e` is the completion error that the first finish fault in `ms`
/// calls for.
pub open spec fn first_finish_fault(e: CompletionError, ms: Seq<(MetricView, MetricCounts)>) -> bool {
    exists|i: int|
        0 <= i < ms.len() && finish_fault(#[trigger] ms[i]) != 0 && finish_fault_error(e, ms[i])
            && forall|j: int| 0 <= j < i ==> finish_fault(#[trigger] ms[j]) == 0
}

/// Configures one [`Progress`] operation before it starts.
#[derive(Debug)]
pub struct ProgressBuilder {
    /// Minimum interval between due-based running reports, in nanoseconds.
    interval: u128,
    /// Stable operation metrics.
    metrics: Vec<Metric>,
    /// Correlation attributes shared by all operation events.
    attributes: OperationAttributes,
}

impl ProgressBuilder {
    /// Intervals are durations.
    #[verifier::type_invariant]
    closed spec fn interval_in_range(&self) -> bool {
        self.interval <= DURATION_MAX_NANOS
    }

    /// The configured interval.
    pub closed spec fn interval_spec(&self) -> u128 {
        self.interval
    }

    /// The configured metrics.
    pub closed spec fn metrics_spec(&self) -> Seq<MetricView> {
        metric_views(self.metrics@)
    }

    /// The configured attributes.
    pub closed spec fn attributes_spec(&self) -> Map<Seq<char>, Seq<char>> {
        self.attributes@
    }

    /// Creates a builder with a zero interval, no metrics and no attributes.
    pub fn new() -> (b: Self)
        ensures
            b.interval_spec() == 0,
            b.metrics_spec().len() == 0,
            b.attributes_spec() == Map::<Seq<char>, Seq<char>>::empty(),
    {
        let b = ProgressBuilder {
            interval: 0,
            metrics: Vec::new(),
            attributes: OperationAttributes::new(),
        };
        assert(b.metrics_spec() =~= Seq::<MetricView>::empty());
        b
    }

    /// Sets the minimum interval between due-based running reports.
    pub fn interval(self, interval: u128) -> (b: Self)
        requires
            interval <= DURATION_MAX_NANOS,
        ensures
            b.interval_spec() == interval,
            b.metrics_spec() == self.metrics_spec(),
            b.attributes_spec() == self.attributes_spec(),
    {
        ProgressBuilder { interval, ..self }
    }

    /// Adds one stable metric to the operation.
    pub fn metric(self, metric: Metric) -> (b: Self)
        ensures
            b.interval_spec() == self.interval_spec(),
            b.metrics_spec() == self.metrics_spec().push(metric@),
            b.attributes_spec() == self.attributes_spec(),
    {
        proof {
            use_type_invariant(&self);
        }
        let mut metrics = self.metrics;
        let ghost before = metrics@;
        metrics.push(metric);
        let b = ProgressBuilder { interval: self.interval, metrics, attributes: self.attributes };
        assert(b.metrics_spec() =~= metric_views(before).push(metric@));
        b
    }

    /// Adds or replaces one operation correlation attribute.
    pub fn attribute(self, key: &str, value: &str) -> (b: Self)
        ensures
            b.interval_spec() == self.interval_spec(),
            b.metrics_spec() == self.metrics_spec(),
            b.attributes_spec() == self.attributes_spec().insert(key@, value@),
    {
        proof {
            use_type_invariant(&self);
        }
        let mut attributes = self.attributes;
        attributes.insert(key, value);
        ProgressBuilder { interval: self.interval, metrics: self.metrics, attributes }
    }

    /// Replaces all operation correlation attributes.
    pub fn attributes(self, attributes: OperationAttributes) -> (b: Self)
        ensures
            b.interval_spec() == self.interval_spec(),
            b.metrics_spec() == self.metrics_spec(),
            b.attributes_spec() == attributes@,
    {
        proof {
            use_type_invariant(&self);
        }
        ProgressBuilder { interval: self.interval, metrics: self.metrics, attributes }
    }

    /// Validates the fixed configuration: metrics first, then attributes.
    pub fn validate(&self) -> (r: Result<(), ConfigurationError>)
        ensures
            r is Ok <==> metrics_valid(self.metrics_spec()) && !crate::validation::has_blank_key(
                self.attributes_spec(),
            ),
            r is Err ==> configuration_error_of(r->Err_0, self.metrics_spec(), self.attributes_spec()),
            r is Ok ==> forall|i: int, j: int|
                0 <= i < j < self.metrics_spec().len() ==> (#[trigger] self.metrics_spec()[i]).id != (
                #[trigger] self.metrics_spec()[j]).id,
    {
        proof {
            if metrics_valid(self.metrics_spec()) {
                lemma_valid_metrics_distinct(self.metrics_spec());
            }
        }
        validate_metrics(self.metrics.as_slice())?;
        validate_attributes(&self.attributes)?;
        Ok(())
    }

    /// Validates the configuration and starts the operation.
    ///
    /// An operation given an identifier is enabled: it returns its `Started`
    /// event, with sequence 0, zero elapsed time and zero counts, for the
    /// caller to deliver. An operation given no identifier is disabled and
    /// produces no events.
    pub fn start(self, operation_id: Option<u64>) -> (r: Result<(Progress, Option<Event>), StartError>)
        requires
            operation_id matches Some(id) ==> id != 0,
        ensures
            r matches Ok((p, _)) ==> progress_wf(p@),
            r is Ok <==> metrics_valid(self.metrics_spec()) && !crate::validation::has_blank_key(
                self.attributes_spec(),
            ),
            r matches Err(e) ==> e matches StartError::InvalidConfiguration(c)
                && configuration_error_of(c, self.metrics_spec(), self.attributes_spec()),
            r is Ok ==> forall|i: int, j: int|
                0 <= i < j < self.metrics_spec().len() ==> (#[trigger] self.metrics_spec()[i]).id != (
                #[trigger] self.metrics_spec()[j]).id,
            r matches Ok((p, started)) ==> {
                &&& p@.enabled == operation_id is Some
                &&& p@.operation_id == operation_id
                &&& p@.lifecycle is Open
                &&& definitions_of(p@.metrics) == self.metrics_spec()
                &&& forall|i: int|
                    0 <= i < p@.metrics.len() ==> (#[trigger] p@.metrics[i]).1 == MetricCounts::zero_spec()
                &&& p@.attributes == self.attributes_spec()
                &&& p@.interval == self.interval_spec()
                &&& match operation_id {
                    Some(id) => {
                        &&& started is Some
                        &&& started->0@ == (EventView {
                            operation_id: id,
                            sequence: 0,
                            phase: Phase::Started,
                            attributes: self.attributes_spec(),
                            metrics: snapshots_of(p@.metrics),
                            elapsed: 0,
                        })
                        &&& p@.next_sequence == 1
                        &&& p@.next_due == Some(self.interval_spec())
                    },
                    None => started is None && p@.next_sequence == 0 && p@.next_due is None,
                }
            },
    {
        match self.validate() {
            Ok(()) => {},
            Err(e) => {
                return Err(StartError::InvalidConfiguration(e));
            },
        }
        proof {
            use_type_invariant(&self);
            lemma_valid_metrics_distinct(self.metrics_spec());
        }
        let ghost defs = self.metrics_spec();
        let ProgressBuilder { interval, metrics, attributes } = self;
        let n = metrics.len();
        let mut live: Vec<LiveMetric> = Vec::new();
        let mut i: usize = 0;
        while i < n
            invariant
                n == metrics@.len(),
                defs == metric_views(metrics@),
                live@.len() == i,
                forall|j: int|
                    0 <= j < i ==> (#[trigger] live@[j]).metric@ == defs[j] && live@[j].counts
                        == MetricCounts::zero_spec(),
                i <= n,
            decreases n - i,
        {
            live.push(LiveMetric { metric: metrics[i].duplicate(), counts: MetricCounts::zero() });
            i = i + 1;
        }
        proof {
            let lv = live@.map_values(|m: LiveMetric| (m.metric@, m.counts));
            assert(definitions_of(lv) =~= defs);
            assert forall|j: int| 0 <= j < lv.len() implies counts_within(
                (#[trigger] lv[j]).1,
                lv[j].0.total,
            ) by {
                assert(lv[j].1 == MetricCounts::zero_spec());
            }
        }
        let mut progress = Progress {
            enabled: operation_id.is_some(),
            metrics: live,
            gate: OperationGate::new(),
            attributes,
            interval,
            next_due_elapsed: None,
            operation_id,
            next_sequence: 0,
        };
        assert(definitions_of(progress@.metrics) =~= defs);
        if progress.enabled {
            let started = match progress.emit(Phase::Started, 0) {
                Ok(event) => event,
                Err(e) => {
                    return Err(StartError::OperationIdExhausted);
                },
            };
            proof {
                use_type_invariant(&progress);
            }
            progress.next_due_elapsed = Some(progress.interval);
            Ok((progress, Some(started)))
        } else {
            Ok((progress, None))
        }
    }
}

/// One started progress operation.
#[derive(Debug)]
pub struct Progress {
    /// Whether events are produced.
    enabled: bool,
    /// Live metrics carried by each event.
    metrics: Vec<LiveMetric>,
    /// Lifecycle gate admitting metric updates.
    gate: OperationGate,
    /// Correlation attributes shared by all events.
    attributes: OperationAttributes,
    /// Minimum due-report spacing.
    interval: u128,
    /// Next due elapsed deadline.
    next_due_elapsed: Option<u128>,
    /// Nonzero identifier for enabled operations.
    operation_id: Option<u64>,
    /// Sequence reserved for the next event attempt.
    next_sequence: u64,
}

impl View for Progress {
    type V = ProgressView;

    closed spec fn view(&self) -> ProgressView {
        ProgressView {
            enabled: self.enabled,
            metrics: self.metrics@.map_values(|m: LiveMetric| (m.metric@, m.counts)),
            lifecycle: self.gate.state(),
            attributes: self.attributes@,
            interval: self.interval,
            next_due: self.next_due_elapsed,
            operation_id: self.operation_id,
            next_sequence: self.next_sequence,
        }
    }
}

/// Whether an operation state is one that [`Progress`] maintains.
pub open spec fn progress_wf(p: ProgressView) -> bool {
    &&& p.enabled == p.operation_id is Some
    &&& (p.operation_id matches Some(id) ==> id != 0)
    &&& metrics_valid(definitions_of(p.metrics)) || p.metrics.len() == 0
    &&& forall|i: int|
        0 <= i < p.metrics.len() ==> counts_within((#[trigger] p.metrics[i]).1, p.metrics[i].0.total)
    &&& p.interval <= DURATION_MAX_NANOS
    &&& (p.next_due matches Some(d) ==> d <= DURATION_MAX_NANOS)
}

impl MetricCounts {
    /// Zeroed counts, as a value.
    pub open spec fn zero_spec() -> MetricCounts {
        MetricCounts { active: 0, completed_unclassified: 0, succeeded: 0, failed: 0, cancelled: 0 }
    }
}

impl Progress {
    /// Every operation state respects the limits that [`progress_wf`] names,
    /// and no metric update stays registered with its gate between calls, so
    /// a finish never has an update to wait for.
    #[verifier::type_invariant]
    closed spec fn wf(&self) -> bool {
        &&& progress_wf(self@)
        &&& self.gate.registered() == 0
    }

    /// Creates a builder with a zero interval, no metrics and no attributes.
    pub fn builder() -> (b: ProgressBuilder)
        ensures
            b.interval_spec() == 0,
            b.metrics_spec().len() == 0,
            b.attributes_spec() == Map::<Seq<char>, Seq<char>>::empty(),
    {
        ProgressBuilder::new()
    }

    /// Returns enablement sampled when this operation started.
    pub fn is_enabled(&self) -> (r: bool)
        ensures
            progress_wf(self@),
            r == self@.enabled,
    {
        proof {
            use_type_invariant(self);
        }
        self.enabled
    }

    /// Returns the lifecycle state of the operation.
    pub fn lifecycle(&self) -> (l: GateLifecycle)
        ensures
            progress_wf(self@),
            l == self@.lifecycle,
    {
        proof {
            use_type_invariant(self);
        }
        self.gate.lifecycle()
    }

    /// Returns the number of configured metrics.
    pub fn metric_count(&self) -> (n: usize)
        ensures
            progress_wf(self@),
            n == self@.metrics.len(),
    {
        proof {
            use_type_invariant(self);
        }
        self.metrics.len()
    }

    /// Returns the position of the metric with the given stable ID.
    pub fn metric(&self, metric_id: &str) -> (r: Option<usize>)
        ensures
            r is None <==> forall|i: int|
                0 <= i < self@.metrics.len() ==> (#[trigger] self@.metrics[i]).0.id != metric_id@,
            r matches Some(i) ==> i < self@.metrics.len() && self@.metrics[i as int].0.id
                == metric_id@ && forall|j: int|
                0 <= j < i ==> (#[trigger] self@.metrics[j]).0.id != metric_id@,
    {
        let n = self.metrics.len();
        let mut i: usize = 0;
        while i < n
            invariant
                n == self@.metrics.len(),
                n == self.metrics@.len(),
                self@.metrics == self.metrics@.map_values(|m: LiveMetric| (m.metric@, m.counts)),
                i <= n,
                forall|j: int| 0 <= j < i ==> (#[trigger] self@.metrics[j]).0.id != metric_id@,
            decreases n - i,
        {
            if text_eq(self.metrics[i].metric.id(), metric_id) {
                return Some(i);
            }
            i = i + 1;
        }
        None
    }

    /// Returns the metadata of the metric at `index`.
    pub fn metric_at(&self, index: usize) -> (m: &Metric)
        requires
            index < self@.metrics.len(),
        ensures
            m@ == self@.metrics[index as int].0,
    {
        &self.metrics[index].metric
    }

    /// Returns the live counts of the metric at `index`.
    pub fn counts_at(&self, index: usize) -> (c: MetricCounts)
        requires
            index < self@.metrics.len(),
        ensures
            c == self@.metrics[index as int].1,
    {
        self.metrics[index].counts
    }

    /// Returns one internally consistent snapshot of the metric at `index`.
    pub fn snapshot(&self, index: usize) -> (s: MetricSnapshot)
        requires
            index < self@.metrics.len(),
        ensures
            s@ == snapshot_of(self@.metrics[index as int].0, self@.metrics[index as int].1),
    {
        proof {
            use_type_invariant(self);
        }
        let live = &self.metrics[index];
        assert(self@.metrics[index as int] == (live.metric@, live.counts));
        MetricSnapshot::of_counts(&live.metric, live.counts)
    }

    /// Copies each metric into one event snapshot, in declaration order.
    pub fn metric_snapshots(&self) -> (v: Vec<MetricSnapshot>)
        ensures
            crate::event::snapshot_views(v@) == snapshots_of(self@.metrics),
    {
        let n = self.metrics.len();
        let mut v: Vec<MetricSnapshot> = Vec::new();
        let mut i: usize = 0;
        while i < n
            invariant
                n == self@.metrics.len(),
                i <= n,
                v@.len() == i,
                forall|j: int|
                    0 <= j < i ==> (#[trigger] v@[j])@ == snapshot_of(
                        self@.metrics[j].0,
                        self@.metrics[j].1,
                    ),
            decreases n - i,
        {
            v.push(self.snapshot(i));
            i = i + 1;
        }
        assert(crate::event::snapshot_views(v@) =~= snapshots_of(self@.metrics));
        v
    }

    /// Moves `count` work items of the metric at `index` along `transition`.
    ///
    /// Rejected with [`MetricError::Closed`] once the operation is no longer
    /// open; otherwise the transition is admitted or rejected as
    /// [`MetricCounts::apply`] decides, and a rejected transition changes
    /// nothing.
    pub fn update_metric(
        &mut self,
        index: usize,
        transition: MetricTransition,
        count: u64,
        direction: Direction,
    ) -> (r: Result<(), MetricError>)
        requires
            index < old(self)@.metrics.len(),
        ensures
            progress_wf(final(self)@),
            progress_step(old(self)@, final(self)@, None, StepKind::Quiet),
            update_outcome(
                old(self)@,
                final(self)@,
                index as int,
                transition,
                direction,
                count,
                r,
            ),
    {
        proof {
            use_type_invariant(&*self);
        }
        let ghost before = self@;
        assert(before.metrics[index as int] == (self.metrics@[index as int].metric@, self.metrics@[index as int].counts));
        // The update registers with its gate while it runs and leaves before
        // the counts are written back, so that no update stays registered
        // between calls.
        let mut gate = OperationGate::new();
        std::mem::swap(&mut gate, &mut self.gate);
        if gate.enter_update().is_err() {
            self.gate = gate;
            return Err(MetricError::Closed { metric_id: self.metrics[index].metric.id_string() });
        }
        let live = &self.metrics[index];
        let result = live.counts.apply(
            transition,
            count,
            direction,
            live.metric.id(),
            live.metric.configured_total(),
        );
        let counts = live.counts;
        let ghost total = live.metric@.total;
        gate.leave_update();
        self.gate = gate;
        match result {
            Ok(next) => {
                proof {
                    crate::metric::lemma_applied_counts_within(
                        counts,
                        transition,
                        direction,
                        count,
                        total,
                    );
                }
                let mut metrics: Vec<LiveMetric> = Vec::new();
                std::mem::swap(&mut metrics, &mut self.metrics);
                let metric = metrics[index].metric.duplicate();
                metrics.set(index, LiveMetric { metric, counts: next });
                proof {
                    let nv = metrics@.map_values(|m: LiveMetric| (m.metric@, m.counts));
                    assert(nv =~= before.metrics.update(
                        index as int,
                        (before.metrics[index as int].0, next),
                    ));
                    assert(definitions_of(nv) =~= definitions_of(before.metrics));
                    assert forall|j: int| 0 <= j < nv.len() implies counts_within(
                        (#[trigger] nv[j]).1,
                        nv[j].0.total,
                    ) by {
                        if j != index {
                            assert(nv[j] == before.metrics[j]);
                        }
                    }
                }
                self.metrics = metrics;
                Ok(())
            },
            Err(e) => Err(e),
        }
    }

    /// Applies a whole delta to the metric at `index`.
    ///
    /// Rejected with [`MetricError::Closed`] once the operation is no longer
    /// open; otherwise admitted or rejected as [`MetricCounts::apply_delta`]
    /// decides, and a rejected delta changes nothing.
    pub fn apply_delta(&mut self, index: usize, delta: MetricDelta) -> (r: Result<(), MetricError>)
        requires
            index < old(self)@.metrics.len(),
        ensures
            progress_wf(final(self)@),
            progress_step(old(self)@, final(self)@, None, StepKind::Quiet),
            delta_update_outcome(old(self)@, final(self)@, index as int, delta, r),
    {
        proof {
            use_type_invariant(&*self);
        }
        let ghost before = self@;
        assert(before.metrics[index as int] == (
            self.metrics@[index as int].metric@,
            self.metrics@[index as int].counts,
        ));
        // The update registers with its gate while it runs and leaves before
        // the counts are written back, so that no update stays registered
        // between calls.
        let mut gate = OperationGate::new();
        std::mem::swap(&mut gate, &mut self.gate);
        if gate.enter_update().is_err() {
            self.gate = gate;
            return Err(MetricError::Closed { metric_id: self.metrics[index].metric.id_string() });
        }
        let live = &self.metrics[index];
        let result = live.counts.apply_delta(
            delta,
            live.metric.id(),
            live.metric.configured_total(),
        );
        let counts = live.counts;
        let ghost total = live.metric@.total;
        gate.leave_update();
        self.gate = gate;
        match result {
            Ok(next) => {
                proof {
                    crate::metric::lemma_delta_counts_within(counts, delta, total);
                }
                let mut metrics: Vec<LiveMetric> = Vec::new();
                std::mem::swap(&mut metrics, &mut self.metrics);
                let metric = metrics[index].metric.duplicate();
                metrics.set(index, LiveMetric { metric, counts: next });
                proof {
                    let nv = metrics@.map_values(|m: LiveMetric| (m.metric@, m.counts));
                    assert(nv =~= before.metrics.update(
                        index as int,
                        (before.metrics[index as int].0, next),
                    ));
                    assert(definitions_of(nv) =~= definitions_of(before.metrics));
                    assert forall|j: int| 0 <= j < nv.len() implies counts_within(
                        (#[trigger] nv[j]).1,
                        nv[j].0.total,
                    ) by {
                        if j != index {
                            assert(nv[j] == before.metrics[j]);
                        }
                    }
                }
                self.metrics = metrics;
                Ok(())
            },
            Err(e) => Err(e),
        }
    }

    /// Reserves the next sequence and builds one complete event.
    ///
    /// Fails with [`EmissionError::SequenceExhausted`], changing nothing, for a
    /// disabled operation or when no sequence is left.
    fn emit(&mut self, phase: Phase, elapsed: u128) -> (r: Result<Event, EmissionError>)
        ensures
            emit_outcome(old(self)@, final(self)@, phase, elapsed, r),
    {
        proof {
            use_type_invariant(&*self);
        }
        let operation_id = match self.operation_id {
            Some(id) => id,
            None => {
                return Err(EmissionError::SequenceExhausted);
            },
        };
        let sequence = self.next_sequence;
        self.next_sequence = match sequence.checked_add(1) {
            Some(next) => next,
            None => {
                return Err(EmissionError::SequenceExhausted);
            },
        };
        let metrics = self.metric_snapshots();
        Ok(Event::new(operation_id, sequence, phase, self.attributes.clone(), metrics, elapsed))
    }

    /// Returns the configured minimum interval between due-based reports.
    pub fn report_interval(&self) -> (n: u128)
        ensures
            n == self@.interval,
    {
        self.interval
    }

    /// Tests whether a due-based running report can run at `elapsed`.
    pub fn is_due(&self, elapsed: u128) -> (r: bool)
        ensures
            r == (self@.interval == 0 || (self@.next_due matches Some(d) && elapsed >= d)),
    {
        self.interval == 0 || match self.next_due_elapsed {
            Some(deadline) => elapsed >= deadline,
            None => false,
        }
    }

    /// Returns how long, from `elapsed`, until the next deadline.
    ///
    /// Without a deadline this is the largest duration.
    pub fn time_until_due(&self, elapsed: u128) -> (n: u128)
        ensures
            n == match self@.next_due {
                Some(d) => if d >= elapsed {
                    (d - elapsed) as u128
                } else {
                    0
                },
                None => DURATION_MAX_NANOS,
            },
    {
        match self.next_due_elapsed {
            Some(deadline) => deadline.saturating_sub(elapsed),
            None => DURATION_MAX_NANOS,
        }
    }

    /// Pushes the next deadline one interval past `elapsed`.
    pub fn reset_deadline(&mut self, elapsed: u128)
        requires
            elapsed <= DURATION_MAX_NANOS,
        ensures
            progress_wf(final(self)@),
            progress_step(old(self)@, final(self)@, None, StepKind::Quiet),
            final(self)@ == (ProgressView {
                next_due: deadline_after(elapsed, old(self)@.interval),
                ..old(self)@
            }),
    {
        proof {
            use_type_invariant(&*self);
        }
        self.next_due_elapsed = if elapsed <= DURATION_MAX_NANOS - self.interval {
            Some(elapsed + self.interval)
        } else {
            None
        };
    }

    /// Emits a `Running` event from current metric state, for the caller to
    /// deliver, and pushes the next deadline past `elapsed`.
    ///
    /// A disabled operation produces nothing and changes nothing.
    pub fn report(&mut self, elapsed: u128) -> (r: Result<Option<Event>, EmissionError>)
        requires
            old(self)@.lifecycle is Open,
            elapsed <= DURATION_MAX_NANOS,
        ensures
            progress_wf(final(self)@),
            progress_step(old(self)@, final(self)@, report_event(r), StepKind::Report(elapsed)),
            report_outcome(old(self)@, final(self)@, elapsed, r),
    {
        proof {
            use_type_invariant(&*self);
        }
        if !self.enabled {
            return Ok(None);
        }
        let result = self.emit(Phase::Running, elapsed);
        self.reset_deadline(elapsed);
        match result {
            Ok(event) => Ok(Some(event)),
            Err(e) => Err(e),
        }
    }

    /// Emits a `Running` event only when the operation is enabled and the
    /// configured interval is due at `elapsed`.
    pub fn report_if_due(&mut self, elapsed: u128) -> (r: Result<Option<Event>, EmissionError>)
        requires
            old(self)@.lifecycle is Open,
            elapsed <= DURATION_MAX_NANOS,
        ensures
            progress_wf(final(self)@),
            progress_step(old(self)@, final(self)@, report_event(r), StepKind::Report(elapsed)),
            !(old(self)@.enabled && (old(self)@.interval == 0 || (old(self)@.next_due matches Some(
                d,
            ) && elapsed >= d))) ==> r == Ok::<Option<Event>, EmissionError>(None) && final(self)@
                == old(self)@,
            (old(self)@.enabled && (old(self)@.interval == 0 || (old(self)@.next_due matches Some(
                d,
            ) && elapsed >= d))) ==> report_outcome(old(self)@, final(self)@, elapsed, r),
    {
        proof {
            use_type_invariant(&*self);
        }
        if !self.enabled || !self.is_due(elapsed) {
            return Ok(None);
        }
        self.report(elapsed)
    }

    /// Validates the metric invariants required for successful finish: no
    /// active work, and every known total completed exactly.
    pub fn validate_finish(&self) -> (r: Result<(), CompletionError>)
        ensures
            r is Ok <==> finish_ready(self@.metrics),
            r is Ok <==> forall|i: int|
                0 <= i < self@.metrics.len() ==> work_settled(#[trigger] self@.metrics[i]),
            r is Err ==> first_finish_fault(r->Err_0, self@.metrics),
    {
        proof {
            use_type_invariant(self);
            lemma_finish_ready_iff_settled(self@.metrics);
        }
        let n = self.metrics.len();
        let mut i: usize = 0;
        while i < n
            invariant
                n == self@.metrics.len(),
                n == self.metrics@.len(),
                self@.metrics == self.metrics@.map_values(|m: LiveMetric| (m.metric@, m.counts)),
                forall|j: int|
                    0 <= j < n ==> counts_within((#[trigger] self@.metrics[j]).1, self@.metrics[j].0.total),
                i <= n,
                forall|j: int| 0 <= j < i ==> finish_fault(#[trigger] self@.metrics[j]) == 0,
            decreases n - i,
        {
            let snapshot = self.snapshot(i);
            if snapshot.active() != 0 {
                assert(finish_fault(self@.metrics[i as int]) == 1);
                return Err(
                    CompletionError::ActiveWork {
                        metric_id: self.metrics[i].metric.id_string(),
                        active: snapshot.active(),
                    },
                );
            }
            if let Some(total) = snapshot.total() {
                if snapshot.completed() != total {
                    assert(finish_fault(self@.metrics[i as int]) == 2);
                    return Err(
                        CompletionError::IncompleteTotal {
                            metric_id: self.metrics[i].metric.id_string(),
                            completed: snapshot.completed(),
                            total,
                        },
                    );
                }
            }
            i = i + 1;
        }
        Ok(())
    }

    /// Emits one terminal phase after closing the operation.
    fn terminal(&mut self, phase: Phase, elapsed: u128) -> (r: Result<Option<Event>, TerminalError>)
        requires
            terminal_phase(phase),
            elapsed <= DURATION_MAX_NANOS,
            old(self)@.lifecycle is Open,
        ensures
            progress_wf(final(self)@),
            progress_step(old(self)@, final(self)@, terminal_event(r), StepKind::Terminal(elapsed)),
            final(self)@ == (ProgressView {
                lifecycle: GateLifecycle::Closed,
                next_sequence: final(self)@.next_sequence,
                ..old(self)@
            }),
            terminal_outcome(old(self)@, final(self)@, phase, elapsed, r),
    {
        proof {
            use_type_invariant(&*self);
        }
        self.gate.try_begin_finish();
        self.gate.close();
        if !self.enabled {
            return Ok(None);
        }
        match self.emit(phase, elapsed) {
            Ok(event) => Ok(Some(event)),
            Err(e) => Err(TerminalError::new(elapsed, e)),
        }
    }

    /// Closes the operation and emits a successful terminal event without
    /// checking whether metric work is complete.
    pub fn finish_unchecked(&mut self, elapsed: u128) -> (r: Result<Option<Event>, TerminalError>)
        requires
            elapsed <= DURATION_MAX_NANOS,
            old(self)@.lifecycle is Open,
        ensures
            progress_wf(final(self)@),
            progress_step(old(self)@, final(self)@, terminal_event(r), StepKind::Terminal(elapsed)),
            final(self)@.lifecycle is Closed,
            terminal_outcome(old(self)@, final(self)@, Phase::Succeeded, elapsed, r),
    {
        self.terminal(Phase::Succeeded, elapsed)
    }

    /// Closes the operation and emits a failed terminal event.
    pub fn fail(&mut self, elapsed: u128) -> (r: Result<Option<Event>, TerminalError>)
        requires
            elapsed <= DURATION_MAX_NANOS,
            old(self)@.lifecycle is Open,
        ensures
            progress_wf(final(self)@),
            progress_step(old(self)@, final(self)@, terminal_event(r), StepKind::Terminal(elapsed)),
            final(self)@.lifecycle is Closed,
            terminal_outcome(old(self)@, final(self)@, Phase::Failed, elapsed, r),
    {
        self.terminal(Phase::Failed, elapsed)
    }

    /// Closes the operation and emits a cancelled terminal event.
    pub fn cancel(&mut self, elapsed: u128) -> (r: Result<Option<Event>, TerminalError>)
        requires
            elapsed <= DURATION_MAX_NANOS,
            old(self)@.lifecycle is Open,
        ensures
            progress_wf(final(self)@),
            progress_step(old(self)@, final(self)@, terminal_event(r), StepKind::Terminal(elapsed)),
            final(self)@.lifecycle is Closed,
            terminal_outcome(old(self)@, final(self)@, Phase::Cancelled, elapsed, r),
    {
        self.terminal(Phase::Cancelled, elapsed)
    }

    /// Closes the operation and emits a successful terminal event only when
    /// no metric has active work and every known total has been completed.
    ///
    /// The operation is closed whatever the outcome.
    pub fn finish(&mut self, elapsed: u128) -> (r: Result<Option<Event>, FinishError>)
        requires
            elapsed <= DURATION_MAX_NANOS,
            old(self)@.lifecycle is Open,
        ensures
            progress_wf(final(self)@),
            progress_step(old(self)@, final(self)@, finish_event(r), StepKind::Terminal(elapsed)),
            final(self)@.lifecycle is Closed,
            checked_finish_outcome(old(self)@, final(self)@, elapsed, r),
    {
        proof {
            use_type_invariant(&*self);
        }
        self.gate.try_begin_finish();
        match self.validate_finish() {
            Ok(()) => {},
            Err(source) => {
                self.gate.close();
                return Err(FinishError::Incomplete { elapsed, source });
            },
        }
        self.gate.close();
        if !self.enabled {
            return Ok(None);
        }
        match self.emit(Phase::Succeeded, elapsed) {
            Ok(event) => Ok(Some(event)),
            Err(e) => Err(FinishError::Terminal(TerminalError::new(elapsed, e))),
        }
    }

    /// Emits a successful terminal event like [`Self::finish`], but reopens
    /// the operation when completion validation fails so that work can go on.
    pub fn finish_recoverable(&mut self, elapsed: u128) -> (r: Result<Option<Event>, FinishError>)
        requires
            elapsed <= DURATION_MAX_NANOS,
            old(self)@.lifecycle is Open,
        ensures
            progress_wf(final(self)@),
            progress_step(old(self)@, final(self)@, finish_event(r), if finish_ready(old(self)@.metrics) { StepKind::Terminal(elapsed) } else { StepKind::Quiet }),
            !finish_ready(old(self)@.metrics) ==> final(self)@ == old(self)@ && incomplete_outcome(
                r,
                elapsed,
                old(self)@.metrics,
            ),
            finish_ready(old(self)@.metrics) ==> final(self)@.lifecycle is Closed && finish_outcome(
                old(self)@,
                final(self)@,
                elapsed,
                r,
            ),
    {
        proof {
            use_type_invariant(&*self);
        }
        self.gate.try_begin_finish();
        match self.validate_finish() {
            Ok(()) => {},
            Err(source) => {
                self.gate.reopen();
                return Err(FinishError::Incomplete { elapsed, source });
            },
        }
        self.gate.close();
        if !self.enabled {
            return Ok(None);
        }
        match self.emit(Phase::Succeeded, elapsed) {
            Ok(event) => Ok(Some(event)),
            Err(e) => Err(FinishError::Terminal(TerminalError::new(elapsed, e))),
        }
    }

    /// Permanently closes the operation without emitting anything, as when
    /// its owner abandons it.
    pub fn close(&mut self)
        ensures
            progress_wf(final(self)@),
            progress_step(old(self)@, final(self)@, None, StepKind::Quiet),
            final(self)@ == (ProgressView { lifecycle: GateLifecycle::Closed, ..old(self)@ }),
    {
        proof {
            use_type_invariant(&*self);
        }
        self.gate.close();
    }
}

/// What a terminal method returns and leaves behind: nothing for a disabled
/// operation, else the terminal event with the next sequence, or the
/// exhausted-sequence failure together with `elapsed`.
pub open spec fn terminal_outcome(
    before: ProgressView,
    after: ProgressView,
    phase: Phase,
    elapsed: u128,
    r: Result<Option<Event>, TerminalError>,
) -> bool {
    &&& after == (ProgressView {
        lifecycle: GateLifecycle::Closed,
        next_sequence: after.next_sequence,
        ..before
    })
    &&& if !before.enabled {
        r == Ok::<Option<Event>, TerminalError>(None) && after.next_sequence == before.next_sequence
    } else if before.next_sequence < u64::MAX {
        &&& r matches Ok(Some(e))
        &&& r->Ok_0->0@ == event_from(before, phase, elapsed)
        &&& after.next_sequence == before.next_sequence + 1
    } else {
        &&& r is Err
        &&& r->Err_0.elapsed_spec() == elapsed
        &&& r->Err_0.source_spec() == EmissionError::SequenceExhausted
        &&& after.next_sequence == before.next_sequence
    }
}

/// Whether `r` reports a failed completion check at `elapsed` with the first
/// finish fault of `ms`.
pub open spec fn incomplete_outcome(
    r: Result<Option<Event>, FinishError>,
    elapsed: u128,
    ms: Seq<(MetricView, MetricCounts)>,
) -> bool {
    match r {
        Err(FinishError::Incomplete { elapsed: el, source }) => el == elapsed && first_finish_fault(
            source,
            ms,
        ),
        _ => false,
    }
}

/// The event an operation in state `before` emits for `phase` at `elapsed`.
pub open spec fn event_from(before: ProgressView, phase: Phase, elapsed: u128) -> EventView {
    EventView {
        operation_id: before.operation_id->0,
        sequence: before.next_sequence,
        phase,
        attributes: before.attributes,
        metrics: snapshots_of(before.metrics),
        elapsed,
    }
}

/// What a checked finish returns once validation passed: the outcome of a
/// `Succeeded` terminal emission.
pub open spec fn finish_outcome(
    before: ProgressView,
    after: ProgressView,
    elapsed: u128,
    r: Result<Option<Event>, FinishError>,
) -> bool {
    &&& after == (ProgressView {
        lifecycle: GateLifecycle::Closed,
        next_sequence: after.next_sequence,
        ..before
    })
    &&& if !before.enabled {
        r == Ok::<Option<Event>, FinishError>(None) && after.next_sequence == before.next_sequence
    } else if before.next_sequence < u64::MAX {
        &&& r matches Ok(Some(e))
        &&& r->Ok_0->0@ == event_from(before, Phase::Succeeded, elapsed)
        &&& after.next_sequence == before.next_sequence + 1
    } else {
        &&& r matches Err(FinishError::Terminal(t))
        &&& match r {
            Err(FinishError::Terminal(t)) => t.elapsed_spec() == elapsed && t.source_spec()
                == EmissionError::SequenceExhausted,
            _ => false,
        }
        &&& after.next_sequence == before.next_sequence
    }
}

/// What a metric update returns and leaves behind: a closed operation rejects
/// it; an open one admits or rejects it as [`transition_verdict`] decides,
/// and a rejected update changes nothing.
pub open spec fn update_outcome(
    before: ProgressView,
    after: ProgressView,
    index: int,
    transition: MetricTransition,
    direction: Direction,
    count: u64,
    r: Result<(), MetricError>,
) -> bool {
    let m = before.metrics[index];
    let verdict = transition_verdict(m.1, transition, direction, count, m.0.total);
    &&& !(before.lifecycle is Open) ==> r is Err && r->Err_0.is_closed_for(m.0.id) && after == before
    &&& before.lifecycle is Open ==> match verdict {
        TransitionVerdict::Applied(next) => r is Ok && after == (ProgressView {
            metrics: before.metrics.update(index, (m.0, next)),
            ..before
        }),
        _ => r is Err && error_matches_verdict(r->Err_0, verdict, m.0.id, transition, count)
            && after == before,
    }
}

/// What building one event returns and leaves behind: the event of the next
/// sequence, which is then used up, or the exhausted-sequence failure for a
/// disabled operation or when no sequence is left, with nothing changed.
pub open spec fn emit_outcome(
    before: ProgressView,
    after: ProgressView,
    phase: Phase,
    elapsed: u128,
    r: Result<Event, EmissionError>,
) -> bool {
    if before.operation_id is Some && before.next_sequence < u64::MAX {
        &&& r is Ok
        &&& r->Ok_0@ == event_from(before, phase, elapsed)
        &&& after == (ProgressView { next_sequence: (before.next_sequence + 1) as u64, ..before })
    } else {
        r == Err::<Event, EmissionError>(EmissionError::SequenceExhausted) && after == before
    }
}

/// What a checked finish returns and leaves behind: with a finish fault, the
/// closed operation and the first fault; without one, the terminal outcome of
/// a `Succeeded` emission.
pub open spec fn checked_finish_outcome(
    before: ProgressView,
    after: ProgressView,
    elapsed: u128,
    r: Result<Option<Event>, FinishError>,
) -> bool {
    &&& !finish_ready(before.metrics) ==> after == (ProgressView {
        lifecycle: GateLifecycle::Closed,
        ..before
    }) && incomplete_outcome(r, elapsed, before.metrics)
    &&& finish_ready(before.metrics) ==> finish_outcome(before, after, elapsed, r)
}

/// Once an operation is no longer open, every metric update is rejected with
/// the closed-operation error and changes nothing.
pub proof fn lemma_closed_operation_rejects_updates(
    before: ProgressView,
    after: ProgressView,
    index: int,
    transition: MetricTransition,
    direction: Direction,
    count: u64,
    r: Result<(), MetricError>,
)
    requires
        0 <= index < before.metrics.len(),
        !(before.lifecycle is Open),
        update_outcome(before, after, index, transition, direction, count, r),
    ensures
        r is Err,
        r->Err_0.is_closed_for(before.metrics[index].0.id),
        after == before,
{
}

/// A rejected metric update leaves the operation exactly as it was.
pub proof fn lemma_rejected_update_changes_nothing(
    before: ProgressView,
    after: ProgressView,
    index: int,
    transition: MetricTransition,
    direction: Direction,
    count: u64,
    r: Result<(), MetricError>,
)
    requires
        0 <= index < before.metrics.len(),
        update_outcome(before, after, index, transition, direction, count, r),
        r is Err,
    ensures
        after == before,
{
}

/// Every admitted metric update keeps the operation well formed: in
/// particular, completed plus active work never exceeds a known total.
pub proof fn lemma_update_keeps_progress_wf(
    before: ProgressView,
    after: ProgressView,
    index: int,
    transition: MetricTransition,
    direction: Direction,
    count: u64,
    r: Result<(), MetricError>,
)
    requires
        progress_wf(before),
        0 <= index < before.metrics.len(),
        update_outcome(before, after, index, transition, direction, count, r),
    ensures
        progress_wf(after),
{
    let m = before.metrics[index];
    if before.lifecycle is Open {
        if let TransitionVerdict::Applied(next) = transition_verdict(
            m.1,
            transition,
            direction,
            count,
            m.0.total,
        ) {
            crate::metric::lemma_applied_counts_within(m.1, transition, direction, count, m.0.total);
            assert(definitions_of(after.metrics) =~= definitions_of(before.metrics));
            assert forall|j: int| 0 <= j < after.metrics.len() implies counts_within(
                (#[trigger] after.metrics[j]).1,
                after.metrics[j].0.total,
            ) by {
                if j != index {
                    assert(after.metrics[j] == before.metrics[j]);
                }
            }
        }
    }
}

/// Successive events of one operation carry its identifier and consecutive
/// sequences.
pub proof fn lemma_events_have_consecutive_sequences(
    p0: ProgressView,
    p1: ProgressView,
    p2: ProgressView,
    phase1: Phase,
    elapsed1: u128,
    r1: Result<Event, EmissionError>,
    phase2: Phase,
    elapsed2: u128,
    r2: Result<Event, EmissionError>,
)
    requires
        emit_outcome(p0, p1, phase1, elapsed1, r1),
        emit_outcome(p1, p2, phase2, elapsed2, r2),
        r1 is Ok,
        r2 is Ok,
    ensures
        r2->Ok_0@.operation_id == r1->Ok_0@.operation_id,
        r2->Ok_0@.sequence == r1->Ok_0@.sequence + 1,
{
}

/// A checked finish reports success only when no metric has active work and
/// every known total has been completed.
pub proof fn lemma_finish_succeeds_only_when_ready(
    before: ProgressView,
    after: ProgressView,
    elapsed: u128,
    r: Result<Option<Event>, FinishError>,
)
    requires
        checked_finish_outcome(before, after, elapsed, r),
        r is Ok,
    ensures
        finish_ready(before.metrics),
{
}

/// After a terminal event has been emitted, or has failed, the operation is
/// closed: any later metric update is rejected and changes nothing.
pub proof fn lemma_no_update_after_terminal(
    p0: ProgressView,
    p1: ProgressView,
    p2: ProgressView,
    phase: Phase,
    elapsed: u128,
    r: Result<Option<Event>, TerminalError>,
    index: int,
    transition: MetricTransition,
    direction: Direction,
    count: u64,
    u: Result<(), MetricError>,
)
    requires
        terminal_outcome(p0, p1, phase, elapsed, r),
        0 <= index < p1.metrics.len(),
        update_outcome(p1, p2, index, transition, direction, count, u),
    ensures
        u is Err,
        u->Err_0.is_closed_for(p1.metrics[index].0.id),
        p2 == p1,
{
}

/// Every event carries each configured metric's stable metadata, its total
/// included, with the metric's latest counts, in declaration order.
pub proof fn lemma_events_carry_complete_metrics(p: ProgressView, phase: Phase, elapsed: u128, i: int)
    requires
        0 <= i < p.metrics.len(),
    ensures
        event_from(p, phase, elapsed).metrics.len() == p.metrics.len(),
        event_from(p, phase, elapsed).metrics[i] == snapshot_of(p.metrics[i].0, p.metrics[i].1),
        event_from(p, phase, elapsed).metrics[i].id == p.metrics[i].0.id,
        event_from(p, phase, elapsed).metrics[i].name == p.metrics[i].0.name,
        event_from(p, phase, elapsed).metrics[i].total == p.metrics[i].0.total,
        event_from(p, phase, elapsed).metrics[i].active == p.metrics[i].1.active,
{
}

/// A terminal method leaves the operation closed, whatever it returns, so no
/// second terminal event and no later report can follow.
pub proof fn lemma_terminal_closes_operation(
    before: ProgressView,
    after: ProgressView,
    phase: Phase,
    elapsed: u128,
    r: Result<Option<Event>, TerminalError>,
)
    requires
        terminal_outcome(before, after, phase, elapsed, r),
    ensures
        after.lifecycle is Closed,
        !(after.lifecycle is Open),
{
}

/// What applying a delta returns and leaves behind: a closed operation
/// rejects it; an open one admits it as [`delta_outcome`] decides, and a
/// rejected delta changes nothing.
pub open spec fn delta_update_outcome(
    before: ProgressView,
    after: ProgressView,
    index: int,
    delta: MetricDelta,
    r: Result<(), MetricError>,
) -> bool {
    let m = before.metrics[index];
    &&& !(before.lifecycle is Open) ==> r is Err && r->Err_0.is_closed_for(m.0.id) && after == before
    &&& before.lifecycle is Open ==> match delta_verdict(m.1, delta, m.0.total) {
        TransitionVerdict::Applied(next) => r is Ok && after == (ProgressView {
            metrics: before.metrics.update(index, (m.0, next)),
            ..before
        }),
        _ => r is Err && delta_error_matches(r->Err_0, m.1, delta, m.0.total, m.0.id) && after
            == before,
    }
}

/// The kind of call that moved an operation from one state to the next: one
/// that emits nothing, a running report at an elapsed time, or a terminal
/// call at an elapsed time.
pub enum StepKind {
    /// A metric update, deadline change or close.
    Quiet,
    /// A running report at this elapsed time, in nanoseconds.
    Report(u128),
    /// A terminal call at this elapsed time, in nanoseconds.
    Terminal(u128),
}

/// Whether a phase ends an operation.
pub open spec fn terminal_phase(p: Phase) -> bool {
    p is Succeeded || p is Failed || p is Cancelled
}

/// The event a report call emitted, if any.
pub open spec fn report_event(r: Result<Option<Event>, EmissionError>) -> Option<EventView> {
    match r {
        Ok(Some(e)) => Some(e@),
        _ => None,
    }
}

/// The event a terminal call emitted, if any.
pub open spec fn terminal_event(r: Result<Option<Event>, TerminalError>) -> Option<EventView> {
    match r {
        Ok(Some(e)) => Some(e@),
        _ => None,
    }
}

/// The event a checked finish emitted, if any.
pub open spec fn finish_event(r: Result<Option<Event>, FinishError>) -> Option<EventView> {
    match r {
        Ok(Some(e)) => Some(e@),
        _ => None,
    }
}

/// What every call on a started operation keeps and what an emitted event
/// is: the identifier, enablement and metric definitions never change, a
/// closed operation stays closed and a terminal call closes it; an event is
/// emitted only while open, carries the operation's identifier, the next
/// sequence (which it uses up), one snapshot per metric in declaration order,
/// the phase the call calls for and the elapsed time it was given. A call
/// that emits nothing leaves the next sequence as it was.
pub open spec fn progress_step(
    before: ProgressView,
    after: ProgressView,
    event: Option<EventView>,
    kind: StepKind,
) -> bool {
    &&& after.operation_id == before.operation_id
    &&& after.enabled == before.enabled
    &&& definitions_of(after.metrics) == definitions_of(before.metrics)
    &&& (!(before.lifecycle is Open) ==> !(after.lifecycle is Open))
    &&& (kind is Terminal ==> !(after.lifecycle is Open))
    &&& match event {
        Some(e) => {
            &&& before.lifecycle is Open
            &&& before.operation_id is Some
            &&& e.operation_id == before.operation_id->0
            &&& e.sequence == before.next_sequence
            &&& after.next_sequence == before.next_sequence + 1
            &&& e.metrics == snapshots_of(before.metrics)
            &&& match kind {
                StepKind::Quiet => false,
                StepKind::Report(t) => e.phase is Running && e.elapsed == t,
                StepKind::Terminal(t) => terminal_phase(e.phase) && e.elapsed == t,
            }
        },
        None => after.next_sequence == before.next_sequence,
    }
}

/// The number of events emitted by the first `k` calls of a history.
pub open spec fn emitted_count(events: Seq<Option<EventView>>, k: int) -> nat
    decreases k,
{
    if k <= 0 {
        0
    } else {
        emitted_count(events, k - 1) + if events[k - 1] is Some {
            1nat
        } else {
            0nat
        }
    }
}

/// The elapsed time a call was given, if it takes one.
pub open spec fn step_elapsed(kind: StepKind) -> Option<u128> {
    match kind {
        StepKind::Quiet => None,
        StepKind::Report(t) => Some(t),
        StepKind::Terminal(t) => Some(t),
    }
}

/// Whether the first `k` calls of a history keep what the history law needs:
/// the identifier and metric definitions of the started state, the next
/// sequence one past the events emitted so far, and a closed operation after
/// any terminal event.
pub open spec fn history_prefix_holds(
    trace: Seq<ProgressView>,
    events: Seq<Option<EventView>>,
    k: int,
) -> bool {
    &&& trace[k].operation_id == trace[0].operation_id
    &&& definitions_of(trace[k].metrics) == definitions_of(trace[0].metrics)
    &&& trace[k].next_sequence == 1 + emitted_count(events, k)
    &&& forall|i: int|
        0 <= i < k && (#[trigger] events[i]) is Some && terminal_phase(events[i]->0.phase)
            ==> !(trace[k].lifecycle is Open)
}

/// Every prefix of a history started from an open operation keeps
/// [`history_prefix_holds`].
proof fn lemma_history_prefix(
    trace: Seq<ProgressView>,
    events: Seq<Option<EventView>>,
    kinds: Seq<StepKind>,
    k: int,
)
    requires
        trace.len() == events.len() + 1,
        kinds.len() == events.len(),
        trace[0].next_sequence == 1,
        forall|i: int|
            0 <= i < events.len() ==> progress_step(
                #[trigger] trace[i],
                trace[i + 1],
                events[i],
                kinds[i],
            ),
        0 <= k <= events.len(),
    ensures
        history_prefix_holds(trace, events, k),
    decreases k,
{
    if k > 0 {
        lemma_history_prefix(trace, events, kinds, k - 1);
        let i = k - 1;
        assert(progress_step(trace[i], trace[i + 1], events[i], kinds[i]));
        assert forall|j: int|
            0 <= j < k && (#[trigger] events[j]) is Some && terminal_phase(events[j]->0.phase)
                implies !(trace[k].lifecycle is Open) by {
            if j < i {
                assert(!(trace[i].lifecycle is Open));
            } else {
                assert(kinds[i] is Terminal);
            }
        }
    }
}

/// The events one enabled operation emits form one well-ordered history.
///
/// Given the `Started` event that starting the operation returned (with the
/// operation's nonzero identifier), and any run of later calls (each stepping the operation as [`progress_step`]
/// describes, `events[i]` being what call `i` emitted): every event carries
/// the operation's identifier; the events have sequences 0, 1, 2, … in the
/// order emitted, with no gap or repeat; only the first is `Started`, every
/// other is `Running` or terminal, and no event follows a terminal one; every
/// event carries one snapshot per metric with the definitions, in builder
/// order, that the operation started with; and when the caller's clock
/// never goes back, elapsed times never decrease, from zero.
pub proof fn lemma_event_history(
    started: EventView,
    trace: Seq<ProgressView>,
    events: Seq<Option<EventView>>,
    kinds: Seq<StepKind>,
)
    requires
        trace.len() == events.len() + 1,
        kinds.len() == events.len(),
        progress_wf(trace[0]),
        trace[0].operation_id == Some(started.operation_id),
        trace[0].lifecycle is Open,
        trace[0].next_sequence == 1,
        started.sequence == 0,
        started.phase is Started,
        started.elapsed == 0,
        started.metrics == snapshots_of(trace[0].metrics),
        forall|i: int|
            0 <= i < events.len() ==> progress_step(
                #[trigger] trace[i],
                trace[i + 1],
                events[i],
                kinds[i],
            ),
    ensures
        forall|i: int|
            0 <= i < events.len() && (#[trigger] events[i]) is Some ==> {
                let e = events[i]->0;
                &&& e.operation_id == started.operation_id
                &&& e.operation_id != 0
                &&& e.sequence == emitted_count(events, i) + 1
                &&& e.sequence != 0 && !(e.phase is Started)
                &&& e.phase is Running || terminal_phase(e.phase)
                &&& e.metrics.len() == started.metrics.len()
                &&& forall|j: int|
                    0 <= j < e.metrics.len() ==> (#[trigger] e.metrics[j]).id == started.metrics[j].id
                        && e.metrics[j].name == started.metrics[j].name && e.metrics[j].total
                        == started.metrics[j].total
            },
        forall|i: int, j: int|
            0 <= i < j < events.len() && (#[trigger] events[i]) is Some && terminal_phase(
                events[i]->0.phase,
            ) ==> (#[trigger] events[j]) is None,
        (forall|i: int, j: int|
            0 <= i < j < kinds.len() && (#[trigger] step_elapsed(kinds[i])) is Some && (#[trigger] step_elapsed(
                kinds[j],
            )) is Some ==> step_elapsed(kinds[i])->0 <= step_elapsed(kinds[j])->0) ==> forall|
            i: int,
            j: int,
        |
            0 <= i < j < events.len() && (#[trigger] events[i]) is Some && (#[trigger] events[j]) is Some
                ==> started.elapsed <= events[i]->0.elapsed <= events[j]->0.elapsed,
{
    assert forall|i: int| 0 <= i < events.len() && (#[trigger] events[i]) is Some implies {
        let e = events[i]->0;
        &&& e.operation_id == started.operation_id
        &&& e.operation_id != 0
        &&& e.sequence == emitted_count(events, i) + 1
        &&& e.sequence != 0 && !(e.phase is Started)
        &&& e.phase is Running || terminal_phase(e.phase)
        &&& e.metrics.len() == started.metrics.len()
        &&& forall|j: int|
            0 <= j < e.metrics.len() ==> (#[trigger] e.metrics[j]).id == started.metrics[j].id
                && e.metrics[j].name == started.metrics[j].name && e.metrics[j].total
                == started.metrics[j].total
    } by {
        lemma_history_prefix(trace, events, kinds, i);
        assert(progress_step(trace[i], trace[i + 1], events[i], kinds[i]));
        let e = events[i]->0;
        let d0 = definitions_of(trace[0].metrics);
        let di = definitions_of(trace[i].metrics);
        assert(di.len() == trace[i].metrics.len());
        assert(d0.len() == trace[0].metrics.len());
        assert forall|j: int| 0 <= j < e.metrics.len() implies (#[trigger] e.metrics[j]).id
            == started.metrics[j].id && e.metrics[j].name == started.metrics[j].name
            && e.metrics[j].total == started.metrics[j].total by {
            assert(di[j] == trace[i].metrics[j].0);
            assert(d0[j] == trace[0].metrics[j].0);
        }
    }
    assert forall|i: int, j: int|
        0 <= i < j < events.len() && (#[trigger] events[i]) is Some && terminal_phase(
            events[i]->0.phase,
        ) implies (#[trigger] events[j]) is None by {
        lemma_history_prefix(trace, events, kinds, j);
        assert(progress_step(trace[j], trace[j + 1], events[j], kinds[j]));
    }
    if forall|i: int, j: int|
        0 <= i < j < kinds.len() && (#[trigger] step_elapsed(kinds[i])) is Some && (#[trigger] step_elapsed(
            kinds[j],
        )) is Some ==> step_elapsed(kinds[i])->0 <= step_elapsed(kinds[j])->0 {
        assert forall|i: int, j: int|
            0 <= i < j < events.len() && (#[trigger] events[i]) is Some && (#[trigger] events[j]) is Some
                implies started.elapsed <= events[i]->0.elapsed <= events[j]->0.elapsed by {
            assert(progress_step(trace[i], trace[i + 1], events[i], kinds[i]));
            assert(progress_step(trace[j], trace[j + 1], events[j], kinds[j]));
            assert(step_elapsed(kinds[i]) is Some);
            assert(step_elapsed(kinds[j]) is Some);
        }
    }
}

/// What an immediate report returns and leaves behind: nothing changes for a
/// disabled operation; an enabled one pushes its next deadline one interval
/// past `elapsed` and emits the `Running` event of the next sequence, using
/// it up, or fails with the exhausted-sequence error; nothing else changes.
pub open spec fn report_outcome(
    before: ProgressView,
    after: ProgressView,
    elapsed: u128,
    r: Result<Option<Event>, EmissionError>,
) -> bool {
    if !before.enabled {
        r == Ok::<Option<Event>, EmissionError>(None) && after == before
    } else if before.next_sequence < u64::MAX {
        &&& r matches Ok(Some(e))
        &&& r->Ok_0->0@ == event_from(before, Phase::Running, elapsed)
        &&& after == (ProgressView {
            next_sequence: (before.next_sequence + 1) as u64,
            next_due: deadline_after(elapsed, before.interval),
            ..before
        })
    } else {
        &&& r == Err::<Option<Event>, EmissionError>(EmissionError::SequenceExhausted)
        &&& after == (ProgressView { next_due: deadline_after(elapsed, before.interval), ..before })
    }
}

} // verus!
