//! Metric dictionaries of self-describing progress events.

use vstd::prelude::*;
use vstd::string::StringExecFns;

use super::{ProgressCounter, ProgressCounterView, ProgressMetric};
use crate::text::text_eq;

verus! {

/// Error produced when a progress schema violates structural constraints.
#[derive(Debug, Clone, PartialEq, Eq)]
pub enum ProgressSchemaError {
    /// More than one metric declares the same stable identifier.
    DuplicateMetricId {
        /// Duplicated metric identifier.
        metric_id: String,
    },
}

/// Whether no two metric definitions share an identifier.
pub open spec fn ids_unique(ms: Seq<(Seq<char>, Seq<char>)>) -> bool {
    forall|i: int, j: int| 0 <= i < j < ms.len() ==> (#[trigger] ms[i]).0 != (#[trigger] ms[j]).0
}

/// Whether the definition at `i` repeats an identifier of an earlier one.
pub open spec fn repeats_earlier(ms: Seq<(Seq<char>, Seq<char>)>, i: int) -> bool {
    exists|j: int| 0 <= j < i && (#[trigger] ms[j]).0 == ms[i].0
}

/// Whether a schema declares identifier `id`.
pub open spec fn declares(ms: Seq<(Seq<char>, Seq<char>)>, id: Seq<char>) -> bool {
    exists|i: int| 0 <= i < ms.len() && (#[trigger] ms[i]).0 == id
}

/// Whether every counter names a declared metric and no metric is counted
/// twice.
pub open spec fn counters_fit(ms: Seq<(Seq<char>, Seq<char>)>, cs: Seq<ProgressCounterView>) -> bool {
    &&& forall|i: int| 0 <= i < cs.len() ==> declares(ms, (#[trigger] cs[i]).metric_id)
    &&& forall|i: int, j: int|
        0 <= i < j < cs.len() ==> (#[trigger] cs[i]).metric_id != (#[trigger] cs[j]).metric_id
}

/// The views of a sequence of metric definitions.
pub open spec fn metric_defs(ms: Seq<ProgressMetric>) -> Seq<(Seq<char>, Seq<char>)> {
    ms.map_values(|m: ProgressMetric| m@)
}

/// The views of a sequence of counters.
pub open spec fn counter_views(cs: Seq<ProgressCounter>) -> Seq<ProgressCounterView> {
    cs.map_values(|c: ProgressCounter| c@)
}

/// Metric dictionary for one logical progress operation.
///
/// A schema defines which metric IDs are valid for the operation; every ID
/// occurs at most once.
#[derive(Debug, PartialEq, Eq)]
pub struct ProgressSchema {
    /// Metric definitions available in this progress stream.
    metrics: Vec<ProgressMetric>,
}

impl View for ProgressSchema {
    type V = Seq<(Seq<char>, Seq<char>)>;

    closed spec fn view(&self) -> Seq<(Seq<char>, Seq<char>)> {
        metric_defs(self.metrics@)
    }
}

impl ProgressSchema {
    /// Metric identifiers are unique.
    #[verifier::type_invariant]
    closed spec fn unique(&self) -> bool {
        ids_unique(self@)
    }

    /// Tries to create a schema from metric definitions.
    ///
    /// Fails with [`ProgressSchemaError::DuplicateMetricId`] naming the first
    /// definition, in order, whose identifier an earlier one already declares.
    pub fn try_new(metrics: Vec<ProgressMetric>) -> (r: Result<Self, ProgressSchemaError>)
        ensures
            r is Ok <==> ids_unique(metric_defs(metrics@)),
            r matches Ok(s) ==> s@ == metric_defs(metrics@),
            r is Err ==> exists|i: int|
                0 <= i < metrics@.len() && repeats_earlier(metric_defs(metrics@), i) && (match r->Err_0 {
                    ProgressSchemaError::DuplicateMetricId { metric_id } => metric_id@
                        == metric_defs(metrics@)[i].0,
                }) && forall|k: int| 0 <= k < i ==> !repeats_earlier(metric_defs(metrics@), k),
    {
        let ghost defs = metric_defs(metrics@);
        let n = metrics.len();
        let mut i: usize = 0;
        while i < n
            invariant
                n == metrics@.len(),
                defs == metric_defs(metrics@),
                i <= n,
                forall|k: int| 0 <= k < i ==> !repeats_earlier(defs, k),
            decreases n - i,
        {
            let mut j: usize = 0;
            while j < i
                invariant
                    n == metrics@.len(),
                    defs == metric_defs(metrics@),
                    i < n,
                    j <= i,
                    forall|k: int| 0 <= k < i ==> !repeats_earlier(defs, k),
                    forall|k: int| 0 <= k < j ==> (#[trigger] defs[k]).0 != defs[i as int].0,
                decreases i - j,
            {
                if text_eq(metrics[j].id(), metrics[i].id()) {
                    assert(defs[j as int].0 == defs[i as int].0);
                    assert(defs[i as int] == metrics@[i as int]@);
                    assert(repeats_earlier(defs, i as int));
                    let e = ProgressSchemaError::DuplicateMetricId {
                        metric_id: metrics[i].id().to_owned(),
                    };
                    assert(match e {
                        ProgressSchemaError::DuplicateMetricId { metric_id } => metric_id@
                            == defs[i as int].0,
                    });
                    return Err(e);
                }
                j = j + 1;
            }
            i = i + 1;
        }
        assert forall|a: int, b: int| 0 <= a < b < defs.len() implies (#[trigger] defs[a]).0
            != (#[trigger] defs[b]).0 by {
            assert(!repeats_earlier(defs, b));
        }
        Ok(ProgressSchema { metrics })
    }

    /// Creates a schema from metric definitions with unique identifiers.
    pub fn new(metrics: Vec<ProgressMetric>) -> (s: Self)
        requires
            ids_unique(metric_defs(metrics@)),
        ensures
            s@ == metric_defs(metrics@),
    {
        ProgressSchema { metrics }
    }

    /// Creates a schema containing one metric.
    pub fn single(id: &str, name: &str) -> (s: Self)
        ensures
            s@ == seq![(id@, name@)],
    {
        let mut metrics = Vec::new();
        metrics.push(ProgressMetric::new(id, name));
        let s = ProgressSchema { metrics };
        assert(s@ =~= seq![(id@, name@)]);
        s
    }

    /// Returns all metric definitions.
    pub fn metrics(&self) -> (ms: &[ProgressMetric])
        ensures
            metric_defs(ms@) == self@,
            ids_unique(self@),
    {
        proof {
            use_type_invariant(self);
        }
        self.metrics.as_slice()
    }

    /// Finds a metric by ID.
    pub fn metric(&self, id: &str) -> (m: Option<&ProgressMetric>)
        ensures
            m is Some <==> declares(self@, id@),
            m matches Some(d) ==> d@.0 == id@ && exists|i: int|
                0 <= i < self@.len() && #[trigger] self@[i] == d@,
    {
        let n = self.metrics.len();
        let mut i: usize = 0;
        while i < n
            invariant
                n == self@.len(),
                n == self.metrics@.len(),
                self@ == metric_defs(self.metrics@),
                i <= n,
                forall|k: int| 0 <= k < i ==> (#[trigger] self@[k]).0 != id@,
            decreases n - i,
        {
            if text_eq(self.metrics[i].id(), id) {
                assert(self@[i as int] == self.metrics@[i as int]@);
                return Some(&self.metrics[i]);
            }
            i = i + 1;
        }
        None
    }

    /// Finds a metric display name by ID.
    pub fn metric_name(&self, id: &str) -> (name: Option<&str>)
        ensures
            name is Some <==> declares(self@, id@),
            name matches Some(n) ==> self@.contains((id@, n@)),
    {
        match self.metric(id) {
            Some(m) => {
                proof {
                    let i = choose|i: int| 0 <= i < self@.len() && #[trigger] self@[i] == m@;
                    assert(self@[i] == (id@, m@.1));
                }
                Some(m.name())
            },
            None => None,
        }
    }

    /// Checks whether the schema contains a metric ID.
    pub fn contains_metric(&self, id: &str) -> (r: bool)
        ensures
            r == declares(self@, id@),
    {
        self.metric(id).is_some()
    }

    /// Checks that one counter names a declared metric.
    pub fn validate_counter(&self, counter: &ProgressCounter) -> (r: bool)
        ensures
            r == declares(self@, counter@.metric_id),
    {
        self.contains_metric(counter.metric_id())
    }

    /// Checks that every counter names a declared metric and that no metric
    /// is counted twice. Numeric relationships are deliberately not checked.
    pub fn validate_counters(&self, counters: &[ProgressCounter]) -> (r: bool)
        ensures
            r == counters_fit(self@, counter_views(counters@)),
    {
        let ghost cs = counter_views(counters@);
        let n = counters.len();
        let mut i: usize = 0;
        while i < n
            invariant
                n == counters@.len(),
                cs == counter_views(counters@),
                i <= n,
                forall|k: int| 0 <= k < i ==> declares(self@, (#[trigger] cs[k]).metric_id),
                forall|a: int, b: int|
                    0 <= a < b < i ==> (#[trigger] cs[a]).metric_id != (#[trigger] cs[b]).metric_id,
            decreases n - i,
        {
            assert(cs[i as int] == counters@[i as int]@);
            if !self.validate_counter(&counters[i]) {
                return false;
            }
            let mut j: usize = 0;
            while j < i
                invariant
                    n == counters@.len(),
                    cs == counter_views(counters@),
                    i < n,
                    j <= i,
                    forall|k: int| 0 <= k < i ==> declares(self@, (#[trigger] cs[k]).metric_id),
                    declares(self@, cs[i as int].metric_id),
                    forall|a: int, b: int|
                        0 <= a < b < i ==> (#[trigger] cs[a]).metric_id
                            != (#[trigger] cs[b]).metric_id,
                    forall|k: int| 0 <= k < j ==> (#[trigger] cs[k]).metric_id != cs[i as int].metric_id,
                decreases i - j,
            {
                if text_eq(counters[j].metric_id(), counters[i].metric_id()) {
                    assert(cs[j as int].metric_id == cs[i as int].metric_id);
                    return false;
                }
                j = j + 1;
            }
            i = i + 1;
        }
        true
    }

    /// Returns an owned copy of this schema.
    pub fn duplicate(&self) -> (s: Self)
        ensures
            s@ == self@,
    {
        proof {
            use_type_invariant(self);
        }
        let n = self.metrics.len();
        let mut metrics: Vec<ProgressMetric> = Vec::new();
        let mut i: usize = 0;
        while i < n
            invariant
                n == self.metrics@.len(),
                i <= n,
                metrics@.len() == i,
                forall|k: int| 0 <= k < i ==> (#[trigger] metrics@[k])@ == self.metrics@[k]@,
            decreases n - i,
        {
            metrics.push(self.metrics[i].clone());
            i = i + 1;
        }
        assert(metric_defs(metrics@) =~= self@);
        ProgressSchema { metrics }
    }
}

impl Default for ProgressSchema {
    /// Creates an empty schema.
    fn default() -> (s: Self)
        ensures
            s@ == Seq::<(Seq<char>, Seq<char>)>::empty(),
    {
        let s = ProgressSchema { metrics: Vec::new() };
        assert(s@ =~= Seq::<(Seq<char>, Seq<char>)>::empty());
        s
    }
}

/// The explanation of a schema failure.
pub open spec fn schema_error_text(e: ProgressSchemaError) -> Seq<char> {
    match e {
        ProgressSchemaError::DuplicateMetricId { metric_id } => "duplicate progress metric id: "@
            + metric_id@,
    }
}

impl ProgressSchemaError {
    /// Explains the schema failure.
    pub fn message(&self) -> (m: String)
        ensures
            m@ == schema_error_text(*self),
    {
        match self {
            ProgressSchemaError::DuplicateMetricId { metric_id } => {
                let mut m = String::from_str("duplicate progress metric id: ");
                m.append(metric_id.as_str());
                m
            },
        }
    }
}

} // verus!
