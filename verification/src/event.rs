//! Immutable progress events and lifecycle phases.

use vstd::prelude::*;

use crate::metric::{MetricSnapshot, MetricSnapshotView};
use crate::operation_attributes::OperationAttributes;
use crate::text::text_eq;

verus! {

/// Lifecycle phase of one immutable progress event.
#[derive(Clone, Copy, Debug, PartialEq, Eq, Structural)]
pub enum Phase {
    /// The unique first event.
    Started,
    /// A non-terminal snapshot.
    Running,
    /// Successful terminal event.
    Succeeded,
    /// Failed terminal event.
    Failed,
    /// Cancelled terminal event.
    Cancelled,
}

/// The stable lowercase wire name of a phase.
pub open spec fn phase_name(p: Phase) -> Seq<char> {
    match p {
        Phase::Started => "started"@,
        Phase::Running => "running"@,
        Phase::Succeeded => "succeeded"@,
        Phase::Failed => "failed"@,
        Phase::Cancelled => "cancelled"@,
    }
}

/// Every phase has its own wire name: two phases share a name only when they
/// are the same phase, and each of the five names belongs to exactly one
/// phase.
pub proof fn lemma_phase_names_distinct(p: Phase, q: Phase)
    ensures
        phase_name(p) == phase_name(q) <==> p == q,
        phase_name(p) == "started"@ <==> p is Started,
        phase_name(p) == "running"@ <==> p is Running,
        phase_name(p) == "succeeded"@ <==> p is Succeeded,
        phase_name(p) == "failed"@ <==> p is Failed,
        phase_name(p) == "cancelled"@ <==> p is Cancelled,
{
    reveal_strlit("started");
    reveal_strlit("running");
    reveal_strlit("succeeded");
    reveal_strlit("failed");
    reveal_strlit("cancelled");
    assert("started"@[0] != "running"@[0]);
    assert("succeeded"@[0] != "cancelled"@[0]);
    assert("started"@.len() != "failed"@.len());
    assert("started"@.len() != "succeeded"@.len());
    assert("started"@.len() != "cancelled"@.len());
    assert("running"@.len() != "failed"@.len());
    assert("running"@.len() != "succeeded"@.len());
    assert("running"@.len() != "cancelled"@.len());
    assert("succeeded"@.len() != "failed"@.len());
    assert("failed"@.len() != "cancelled"@.len());
}

impl Phase {
    /// Returns the stable lowercase wire name.
    pub fn as_str(self) -> (name: &'static str)
        ensures
            name@ == phase_name(self),
    {
        match self {
            Phase::Started => "started",
            Phase::Running => "running",
            Phase::Succeeded => "succeeded",
            Phase::Failed => "failed",
            Phase::Cancelled => "cancelled",
        }
    }

    /// Returns whether no event may follow this phase.
    pub fn is_terminal(self) -> (r: bool)
        ensures
            r == (self is Succeeded || self is Failed || self is Cancelled),
    {
        match self {
            Phase::Started | Phase::Running => false,
            _ => true,
        }
    }
}

/// Abstract content of an [`Event`].
pub struct EventView {
    /// Process-local operation identifier.
    pub operation_id: u64,
    /// Attempted-delivery sequence.
    pub sequence: u64,
    /// Event lifecycle phase.
    pub phase: Phase,
    /// Operation correlation attributes.
    pub attributes: Map<Seq<char>, Seq<char>>,
    /// Metric snapshots in declaration order.
    pub metrics: Seq<MetricSnapshotView>,
    /// Elapsed monotonic operation time in nanoseconds.
    pub elapsed: u128,
}

/// Complete immutable snapshot delivered to one reporter call.
#[derive(Debug, PartialEq, Eq)]
pub struct Event {
    operation_id: u64,
    sequence: u64,
    phase: Phase,
    attributes: OperationAttributes,
    metrics: Vec<MetricSnapshot>,
    elapsed: u128,
}

/// The views of a sequence of snapshots.
pub open spec fn snapshot_views(s: Seq<MetricSnapshot>) -> Seq<MetricSnapshotView> {
    s.map_values(|m: MetricSnapshot| m@)
}

impl View for Event {
    type V = EventView;

    closed spec fn view(&self) -> EventView {
        EventView {
            operation_id: self.operation_id,
            sequence: self.sequence,
            phase: self.phase,
            attributes: self.attributes@,
            metrics: snapshot_views(self.metrics@),
            elapsed: self.elapsed,
        }
    }
}

impl Event {
    /// Creates an event from validated operation state.
    pub fn new(
        operation_id: u64,
        sequence: u64,
        phase: Phase,
        attributes: OperationAttributes,
        metrics: Vec<MetricSnapshot>,
        elapsed: u128,
    ) -> (e: Self)
        ensures
            e@ == (EventView {
                operation_id,
                sequence,
                phase,
                attributes: attributes@,
                metrics: snapshot_views(metrics@),
                elapsed,
            }),
    {
        Event { operation_id, sequence, phase, attributes, metrics, elapsed }
    }

    /// Returns the process-local operation identifier.
    pub fn operation_id(&self) -> (id: u64)
        ensures
            id == self@.operation_id,
    {
        self.operation_id
    }

    /// Returns the attempted-delivery sequence.
    pub fn sequence(&self) -> (s: u64)
        ensures
            s == self@.sequence,
    {
        self.sequence
    }

    /// Returns the event lifecycle phase.
    pub fn phase(&self) -> (p: Phase)
        ensures
            p == self@.phase,
    {
        self.phase
    }

    /// Returns immutable operation correlation attributes.
    pub fn attributes(&self) -> (a: &OperationAttributes)
        ensures
            a@ == self@.attributes,
    {
        &self.attributes
    }

    /// Returns one operation correlation attribute by key.
    pub fn attribute(&self, key: &str) -> (value: Option<&str>)
        ensures
            value is Some <==> self@.attributes.contains_key(key@),
            value matches Some(v) ==> v@ == self@.attributes[key@],
    {
        self.attributes.get(key)
    }

    /// Returns all metric snapshots in declaration order.
    pub fn metrics(&self) -> (m: &[MetricSnapshot])
        ensures
            snapshot_views(m@) == self@.metrics,
    {
        self.metrics.as_slice()
    }

    /// Returns the first metric snapshot with the given stable ID.
    pub fn metric(&self, metric_id: &str) -> (m: Option<&MetricSnapshot>)
        ensures
            m is None <==> forall|i: int|
                0 <= i < self@.metrics.len() ==> (#[trigger] self@.metrics[i]).id != metric_id@,
            m matches Some(s) ==> exists|i: int|
                0 <= i < self@.metrics.len() && s@ == #[trigger] self@.metrics[i] && s@.id
                    == metric_id@ && forall|j: int|
                    0 <= j < i ==> (#[trigger] self@.metrics[j]).id != metric_id@,
    {
        let n = self.metrics.len();
        let mut i: usize = 0;
        while i < n
            invariant
                n == self.metrics@.len(),
                i <= n,
                self@.metrics == snapshot_views(self.metrics@),
                forall|j: int| 0 <= j < i ==> (#[trigger] self@.metrics[j]).id != metric_id@,
            decreases n - i,
        {
            if text_eq(self.metrics[i].id(), metric_id) {
                assert(self@.metrics[i as int] == self.metrics@[i as int]@);
                return Some(&self.metrics[i]);
            }
            i = i + 1;
        }
        None
    }

    /// Returns elapsed monotonic operation time in nanoseconds.
    pub fn elapsed(&self) -> (n: u128)
        ensures
            n == self@.elapsed,
    {
        self.elapsed
    }
}

} // verus!
