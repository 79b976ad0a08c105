//! Validation of fixed operation configuration.

use vstd::prelude::*;

use crate::error::ConfigurationError;
use crate::metric::{Metric, MetricView};
use crate::operation_attributes::{OperationAttributes, keys_sorted, entries_map};
use crate::text::{is_blank, is_blank_text, text_eq, text_less};

verus! {

/// What is wrong with the metric at position `i`, judged against the metrics
/// before it: 0 for nothing, 1 for a blank ID, 2 for a blank name, 3 for an ID
/// that an earlier metric already uses.
pub open spec fn metric_fault(ms: Seq<MetricView>, i: int) -> int {
    if is_blank_text(ms[i].id) {
        1
    } else if is_blank_text(ms[i].name) {
        2
    } else if exists|j: int| 0 <= j < i && (#[trigger] ms[j]).id == ms[i].id {
        3
    } else {
        0
    }
}

/// The configuration error that the fault at position `i` is reported as.
pub open spec fn metric_fault_error(e: ConfigurationError, ms: Seq<MetricView>, i: int) -> bool {
    let fault = metric_fault(ms, i);
    if fault == 1 {
        e == ConfigurationError::EmptyMetricId { index: i as usize }
    } else if fault == 2 {
        match e {
            ConfigurationError::EmptyMetricName { metric_id } => metric_id@ == ms[i].id,
            _ => false,
        }
    } else if fault == 3 {
        match e {
            ConfigurationError::DuplicateMetricId { metric_id } => metric_id@ == ms[i].id,
            _ => false,
        }
    } else {
        false
    }
}

/// The views of a sequence of metrics.
pub open spec fn metric_views(ms: Seq<Metric>) -> Seq<MetricView> {
    ms.map_values(|m: Metric| m@)
}

/// Whether a metric list is an acceptable operation configuration.
pub open spec fn metrics_valid(ms: Seq<MetricView>) -> bool {
    &&& ms.len() > 0
    &&& forall|i: int| 0 <= i < ms.len() ==> metric_fault(ms, i) == 0
}

/// An accepted metric list is nonempty, every ID and name in it holds a
/// non-whitespace character, and no two metrics, wherever they stand, share
/// an ID.
pub proof fn lemma_valid_metrics_distinct(ms: Seq<MetricView>)
    requires
        metrics_valid(ms),
    ensures
        ms.len() > 0,
        forall|i: int|
            0 <= i < ms.len() ==> !is_blank_text(#[trigger] ms[i].id) && !is_blank_text(ms[i].name),
        forall|i: int, j: int| 0 <= i < j < ms.len() ==> (#[trigger] ms[i]).id != (#[trigger] ms[j]).id,
{
    assert forall|i: int| 0 <= i < ms.len() implies !is_blank_text(#[trigger] ms[i].id)
        && !is_blank_text(ms[i].name) by {
        assert(metric_fault(ms, i) == 0);
    }
    assert forall|i: int, j: int| 0 <= i < j < ms.len() implies (#[trigger] ms[i]).id != (
    #[trigger] ms[j]).id by {
        assert(metric_fault(ms, j) == 0);
    }
}

/// A metric list in which two metrics share an ID, wherever they stand, is
/// refused.
pub proof fn lemma_duplicate_metric_ids_refused(ms: Seq<MetricView>, i: int, j: int)
    requires
        0 <= i < j < ms.len(),
        ms[i].id == ms[j].id,
    ensures
        !metrics_valid(ms),
{
    if metrics_valid(ms) {
        lemma_valid_metrics_distinct(ms);
    }
}

/// Whether `e` is the error that validating metric list `ms` reports: no
/// metrics, or the fault of the first faulty metric.
pub open spec fn metrics_error(e: ConfigurationError, ms: Seq<MetricView>) -> bool {
    if ms.len() == 0 {
        e == ConfigurationError::NoMetrics
    } else {
        exists|i: int|
            #![trigger metric_fault_error(e, ms, i)]
            0 <= i < ms.len() && metric_fault(ms, i) != 0 && metric_fault_error(e, ms, i) && forall|j: int|
                0 <= j < i ==> metric_fault(ms, j) == 0
    }
}

/// The error that validating a configuration reports, if any: metric faults
/// first, then blank attribute keys.
pub open spec fn configuration_error_of(
    e: ConfigurationError,
    ms: Seq<MetricView>,
    attributes: Map<Seq<char>, Seq<char>>,
) -> bool {
    if !metrics_valid(ms) {
        metrics_error(e, ms)
    } else {
        blank_key_error(e, attributes)
    }
}

/// Validates the metric list of an operation.
///
/// The list must be nonempty; the first metric in order with a blank ID, a
/// blank name, or an ID used by an earlier metric is reported, checking in that
/// order.
pub fn validate_metrics(metrics: &[Metric]) -> (r: Result<(), ConfigurationError>)
    ensures
        r is Ok <==> metrics_valid(metric_views(metrics@)),
        r is Ok ==> forall|i: int, j: int|
            0 <= i < j < metrics@.len() ==> (#[trigger] metrics@[i])@.id != (#[trigger] metrics@[j])@.id,
        r is Err ==> metrics_error(r->Err_0, metric_views(metrics@)),
{
    let ghost ms = metric_views(metrics@);
    let n = metrics.len();
    if n == 0 {
        return Err(ConfigurationError::NoMetrics);
    }
    let mut i: usize = 0;
    while i < n
        invariant
            n == metrics@.len(),
            ms == metric_views(metrics@),
            i <= n,
            forall|j: int| 0 <= j < i ==> metric_fault(ms, j) == 0,
        decreases n - i,
    {
        let metric = &metrics[i];
        assert(ms[i as int] == metric@);
        if is_blank(metric.id()) {
            assert(metric_fault(ms, i as int) == 1);
            let e = ConfigurationError::EmptyMetricId { index: i };
            assert(metric_fault_error(e, ms, i as int));
            return Err(e);
        }
        if is_blank(metric.name()) {
            assert(metric_fault(ms, i as int) == 2);
            let e = ConfigurationError::EmptyMetricName { metric_id: metric.id_string() };
            assert(metric_fault_error(e, ms, i as int));
            return Err(e);
        }
        let mut j: usize = 0;
        while j < i
            invariant
                n == metrics@.len(),
                ms == metric_views(metrics@),
                i < n,
                j <= i,
                metric@ == ms[i as int],
                forall|k: int| 0 <= k < i ==> metric_fault(ms, k) == 0,
                !is_blank_text(ms[i as int].id),
                !is_blank_text(ms[i as int].name),
                forall|k: int| 0 <= k < j ==> (#[trigger] ms[k]).id != ms[i as int].id,
            decreases i - j,
        {
            assert(ms[j as int] == metrics@[j as int]@);
            if text_eq(metrics[j].id(), metric.id()) {
                assert(ms[j as int].id == ms[i as int].id);
                assert(metric_fault(ms, i as int) == 3);
                let e = ConfigurationError::DuplicateMetricId { metric_id: metric.id_string() };
                assert(metric_fault_error(e, ms, i as int));
                return Err(e);
            }
            j = j + 1;
        }
        assert(metric_fault(ms, i as int) == 0);
        i = i + 1;
    }
    proof {
        lemma_valid_metrics_distinct(ms);
        assert forall|i: int, j: int| 0 <= i < j < metrics@.len() implies (#[trigger] metrics@[i])@.id
            != (#[trigger] metrics@[j])@.id by {
            assert(ms[i] == metrics@[i]@);
            assert(ms[j] == metrics@[j]@);
        }
    }
    Ok(())
}

/// Whether some attribute key is empty or whitespace only.
pub open spec fn has_blank_key(attributes: Map<Seq<char>, Seq<char>>) -> bool {
    exists|k: Seq<char>| attributes.contains_key(k) && is_blank_text(k)
}

/// Whether `e` reports the blank key of `attributes` that comes first in
/// ascending key order.
pub open spec fn blank_key_error(e: ConfigurationError, attributes: Map<Seq<char>, Seq<char>>) -> bool {
    match e {
        ConfigurationError::EmptyAttributeKey { key } => {
            &&& attributes.contains_key(key@)
            &&& is_blank_text(key@)
            &&& forall|k: Seq<char>|
                #![trigger attributes.contains_key(k)]
                attributes.contains_key(k) && is_blank_text(k) && k != key@ ==> text_less(key@, k)
        },
        _ => false,
    }
}

/// Validates operation attributes: every key must contain a non-whitespace
/// character. The first offending key in ascending key order is reported.
pub fn validate_attributes(attributes: &OperationAttributes) -> (r: Result<(), ConfigurationError>)
    ensures
        r is Ok <==> !has_blank_key(attributes@),
        r is Err ==> blank_key_error(r->Err_0, attributes@),
{
    let entries = attributes.iter();
    let ghost texts = entries@.map_values(|e: (String, String)| (e.0@, e.1@));
    let n = entries.len();
    let mut i: usize = 0;
    while i < n
        invariant
            n == entries@.len(),
            texts == entries@.map_values(|e: (String, String)| (e.0@, e.1@)),
            keys_sorted(texts),
            entries_map(texts) == attributes@,
            i <= n,
            forall|j: int| 0 <= j < i ==> !is_blank_text(#[trigger] texts[j].0),
        decreases n - i,
    {
        assert(texts[i as int].0 == entries@[i as int].0@);
        if is_blank(entries[i].0.as_str()) {
            assert(entries_map(texts).contains_key(texts[i as int].0));
            let key = entries[i].0.clone();
            assert forall|k: Seq<char>|
                #![trigger attributes@.contains_key(k)]
                attributes@.contains_key(k) && is_blank_text(k) && k != key@ implies text_less(
                key@,
                k,
            ) by {
                let j = choose|j: int| 0 <= j < texts.len() && (#[trigger] texts[j]).0 == k;
                if j < i {
                    assert(!is_blank_text(texts[j].0));
                } else if j > i {
                    assert(text_less(texts[i as int].0, texts[j].0));
                }
            }
            return Err(ConfigurationError::EmptyAttributeKey { key });
        }
        i = i + 1;
    }
    assert forall|k: Seq<char>| attributes@.contains_key(k) implies !is_blank_text(k) by {
        let j = choose|j: int| 0 <= j < texts.len() && (#[trigger] texts[j]).0 == k;
    }
    Ok(())
}

} // verus!
