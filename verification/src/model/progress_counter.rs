//! Counters of one metric in a self-describing progress event.

use vstd::prelude::*;

verus! {

/// Abstract content of a [`ProgressCounter`].
pub struct ProgressCounterView {
    /// Identifier of the metric this counter reports.
    pub metric_id: Seq<char>,
    /// Total work-unit count when known.
    pub total: Option<u64>,
    /// Completed work-unit count.
    pub completed: u64,
    /// Active work-unit count.
    pub active: u64,
    /// Successful work-unit count.
    pub succeeded: u64,
    /// Failed work-unit count.
    pub failed: u64,
}

/// Counters for one metric in a progress event.
///
/// A counter is identified by its metric ID; the display name lives in the
/// event's schema. Counts are `u64` independent of the platform word size.
#[derive(Debug, PartialEq, Eq, Hash)]
pub struct ProgressCounter {
    metric_id: String,
    total_count: Option<u64>,
    completed_count: u64,
    active_count: u64,
    succeeded_count: u64,
    failed_count: u64,
}

impl View for ProgressCounter {
    type V = ProgressCounterView;

    closed spec fn view(&self) -> ProgressCounterView {
        ProgressCounterView {
            metric_id: self.metric_id@,
            total: self.total_count,
            completed: self.completed_count,
            active: self.active_count,
            succeeded: self.succeeded_count,
            failed: self.failed_count,
        }
    }
}

/// A counter of `metric_id` with an unknown total and every count zero.
pub open spec fn zeroed_counter(metric_id: Seq<char>) -> ProgressCounterView {
    ProgressCounterView {
        metric_id,
        total: None,
        completed: 0,
        active: 0,
        succeeded: 0,
        failed: 0,
    }
}

/// Remaining work `total - completed - active`, saturating at zero, when the
/// total is known.
pub open spec fn remaining_of(total: Option<u64>, completed: u64, active: u64) -> Option<u64> {
    match total {
        Some(t) => Some(
            if t >= completed + active {
                (t - completed - active) as u64
            } else {
                0u64
            },
        ),
        None => None,
    }
}

/// Saturating remaining work shared by counters and metric snapshots.
pub fn remaining(total: Option<u64>, completed: u64, active: u64) -> (r: Option<u64>)
    ensures
        r == remaining_of(total, completed, active),
{
    match total {
        Some(t) => Some(t.saturating_sub(completed).saturating_sub(active)),
        None => None,
    }
}

impl ProgressCounter {
    /// Creates a zeroed counter for a metric with an unknown total count.
    pub fn new(metric_id: &str) -> (c: Self)
        ensures
            c@ == zeroed_counter(metric_id@),
    {
        ProgressCounter {
            metric_id: metric_id.to_owned(),
            total_count: None,
            completed_count: 0,
            active_count: 0,
            succeeded_count: 0,
            failed_count: 0,
        }
    }

    /// Returns a copy configured with the known or unknown total count.
    pub fn with_total_count(self, total_count: Option<u64>) -> (c: Self)
        ensures
            c@ == (ProgressCounterView { total: total_count, ..self@ }),
    {
        ProgressCounter { total_count, ..self }
    }

    /// Returns a copy configured with a known total count.
    pub fn total(self, total_count: u64) -> (c: Self)
        ensures
            c@ == (ProgressCounterView { total: Some(total_count), ..self@ }),
    {
        self.with_total_count(Some(total_count))
    }

    /// Returns a copy configured with an unknown total count.
    pub fn unknown_total(self) -> (c: Self)
        ensures
            c@ == (ProgressCounterView { total: None, ..self@ }),
    {
        self.with_total_count(None)
    }

    /// Returns a copy configured with the completed count.
    pub fn with_completed_count(self, completed_count: u64) -> (c: Self)
        ensures
            c@ == (ProgressCounterView { completed: completed_count, ..self@ }),
    {
        ProgressCounter { completed_count, ..self }
    }

    /// Returns a copy configured with the completed count.
    pub fn completed(self, completed_count: u64) -> (c: Self)
        ensures
            c@ == (ProgressCounterView { completed: completed_count, ..self@ }),
    {
        self.with_completed_count(completed_count)
    }

    /// Returns a copy configured with the active count.
    pub fn with_active_count(self, active_count: u64) -> (c: Self)
        ensures
            c@ == (ProgressCounterView { active: active_count, ..self@ }),
    {
        ProgressCounter { active_count, ..self }
    }

    /// Returns a copy configured with the active count.
    pub fn active(self, active_count: u64) -> (c: Self)
        ensures
            c@ == (ProgressCounterView { active: active_count, ..self@ }),
    {
        self.with_active_count(active_count)
    }

    /// Returns a copy configured with the succeeded count.
    pub fn with_succeeded_count(self, succeeded_count: u64) -> (c: Self)
        ensures
            c@ == (ProgressCounterView { succeeded: succeeded_count, ..self@ }),
    {
        ProgressCounter { succeeded_count, ..self }
    }

    /// Returns a copy configured with the succeeded count.
    pub fn succeeded(self, succeeded_count: u64) -> (c: Self)
        ensures
            c@ == (ProgressCounterView { succeeded: succeeded_count, ..self@ }),
    {
        self.with_succeeded_count(succeeded_count)
    }

    /// Returns a copy configured with the failed count.
    pub fn with_failed_count(self, failed_count: u64) -> (c: Self)
        ensures
            c@ == (ProgressCounterView { failed: failed_count, ..self@ }),
    {
        ProgressCounter { failed_count, ..self }
    }

    /// Returns a copy configured with the failed count.
    pub fn failed(self, failed_count: u64) -> (c: Self)
        ensures
            c@ == (ProgressCounterView { failed: failed_count, ..self@ }),
    {
        self.with_failed_count(failed_count)
    }

    /// Returns the metric identifier.
    pub fn metric_id(&self) -> (id: &str)
        ensures
            id@ == self@.metric_id,
    {
        self.metric_id.as_str()
    }

    /// Returns the total work-unit count when known.
    pub fn total_count(&self) -> (n: Option<u64>)
        ensures
            n == self@.total,
    {
        self.total_count
    }

    /// Returns the completed work-unit count.
    pub fn completed_count(&self) -> (n: u64)
        ensures
            n == self@.completed,
    {
        self.completed_count
    }

    /// Returns the active work-unit count.
    pub fn active_count(&self) -> (n: u64)
        ensures
            n == self@.active,
    {
        self.active_count
    }

    /// Returns the successful work-unit count.
    pub fn succeeded_count(&self) -> (n: u64)
        ensures
            n == self@.succeeded,
    {
        self.succeeded_count
    }

    /// Returns the failed work-unit count.
    pub fn failed_count(&self) -> (n: u64)
        ensures
            n == self@.failed,
    {
        self.failed_count
    }

    /// Returns `total - completed - active`, saturating at zero, when the
    /// total count is known.
    pub fn remaining_count(&self) -> (n: Option<u64>)
        ensures
            n == remaining_of(self@.total, self@.completed, self@.active),
    {
        remaining(self.total_count, self.completed_count, self.active_count)
    }
}

impl Clone for ProgressCounter {
    fn clone(&self) -> (c: Self)
        ensures
            c@ == self@,
    {
        ProgressCounter {
            metric_id: self.metric_id.clone(),
            total_count: self.total_count,
            completed_count: self.completed_count,
            active_count: self.active_count,
            succeeded_count: self.succeeded_count,
            failed_count: self.failed_count,
        }
    }
}

} // verus!
