//! Generic platform-word counters of a running operation.

use vstd::prelude::*;

verus! {

/// Abstract content of [`ProgressCounters`].
pub struct ProgressCountersView {
    /// Total work-unit count when known.
    pub total: Option<usize>,
    /// Completed work-unit count.
    pub completed: usize,
    /// Active work-unit count.
    pub active: usize,
    /// Successful work-unit count.
    pub succeeded: usize,
    /// Failed work-unit count.
    pub failed: usize,
}

/// Generic progress counters for a running operation.
#[derive(Debug, Clone, Copy, PartialEq, Eq, Hash)]
pub struct ProgressCounters {
    total_count: Option<usize>,
    completed_count: usize,
    active_count: usize,
    succeeded_count: usize,
    failed_count: usize,
}

impl View for ProgressCounters {
    type V = ProgressCountersView;

    closed spec fn view(&self) -> ProgressCountersView {
        ProgressCountersView {
            total: self.total_count,
            completed: self.completed_count,
            active: self.active_count,
            succeeded: self.succeeded_count,
            failed: self.failed_count,
        }
    }
}

/// Remaining work `total - (completed + active)`, saturating at zero, when
/// the total is known.
pub open spec fn counters_remaining(c: ProgressCountersView) -> Option<usize> {
    match c.total {
        Some(t) => Some(
            if t >= c.completed + c.active {
                (t - c.completed - c.active) as usize
            } else {
                0usize
            },
        ),
        None => None,
    }
}

impl ProgressCounters {
    /// Creates zeroed counters with a known or unknown total count.
    pub fn new(total_count: Option<usize>) -> (c: Self)
        ensures
            c@ == (ProgressCountersView {
                total: total_count,
                completed: 0,
                active: 0,
                succeeded: 0,
                failed: 0,
            }),
    {
        ProgressCounters {
            total_count,
            completed_count: 0,
            active_count: 0,
            succeeded_count: 0,
            failed_count: 0,
        }
    }

    /// Updates the known or unknown total count in place.
    pub(crate) fn set_total_count(&mut self, total_count: Option<usize>)
        ensures
            final(self)@ == (ProgressCountersView { total: total_count, ..old(self)@ }),
    {
        self.total_count = total_count;
    }

    /// Returns a copy configured with the completed count.
    pub fn with_completed_count(self, completed_count: usize) -> (c: Self)
        ensures
            c@ == (ProgressCountersView { completed: completed_count, ..self@ }),
    {
        ProgressCounters { completed_count, ..self }
    }

    /// Updates the completed count in place.
    pub(crate) fn set_completed_count(&mut self, completed_count: usize)
        ensures
            final(self)@ == (ProgressCountersView { completed: completed_count, ..old(self)@ }),
    {
        self.completed_count = completed_count;
    }

    /// Returns a copy configured with the active count.
    pub fn with_active_count(self, active_count: usize) -> (c: Self)
        ensures
            c@ == (ProgressCountersView { active: active_count, ..self@ }),
    {
        ProgressCounters { active_count, ..self }
    }

    /// Updates the active count in place.
    pub(crate) fn set_active_count(&mut self, active_count: usize)
        ensures
            final(self)@ == (ProgressCountersView { active: active_count, ..old(self)@ }),
    {
        self.active_count = active_count;
    }

    /// Returns a copy configured with the succeeded count.
    pub fn with_succeeded_count(self, succeeded_count: usize) -> (c: Self)
        ensures
            c@ == (ProgressCountersView { succeeded: succeeded_count, ..self@ }),
    {
        ProgressCounters { succeeded_count, ..self }
    }

    /// Updates the succeeded count in place.
    pub(crate) fn set_succeeded_count(&mut self, succeeded_count: usize)
        ensures
            final(self)@ == (ProgressCountersView { succeeded: succeeded_count, ..old(self)@ }),
    {
        self.succeeded_count = succeeded_count;
    }

    /// Returns a copy configured with the failed count.
    pub fn with_failed_count(self, failed_count: usize) -> (c: Self)
        ensures
            c@ == (ProgressCountersView { failed: failed_count, ..self@ }),
    {
        ProgressCounters { failed_count, ..self }
    }

    /// Updates the failed count in place.
    pub(crate) fn set_failed_count(&mut self, failed_count: usize)
        ensures
            final(self)@ == (ProgressCountersView { failed: failed_count, ..old(self)@ }),
    {
        self.failed_count = failed_count;
    }

    /// Returns the total work-unit count when known.
    pub fn total_count(&self) -> (n: Option<usize>)
        ensures
            n == self@.total,
    {
        self.total_count
    }

    /// Returns the completed work-unit count.
    pub fn completed_count(&self) -> (n: usize)
        ensures
            n == self@.completed,
    {
        self.completed_count
    }

    /// Returns the active work-unit count.
    pub fn active_count(&self) -> (n: usize)
        ensures
            n == self@.active,
    {
        self.active_count
    }

    /// Returns the successful work-unit count.
    pub fn succeeded_count(&self) -> (n: usize)
        ensures
            n == self@.succeeded,
    {
        self.succeeded_count
    }

    /// Returns the failed work-unit count.
    pub fn failed_count(&self) -> (n: usize)
        ensures
            n == self@.failed,
    {
        self.failed_count
    }

    /// Returns `total - (completed + active)`, saturating at zero, when the
    /// total count is known; a sum of completed and active work beyond the
    /// word size exceeds any total, so it too gives zero.
    pub fn remaining_count(&self) -> (n: Option<usize>)
        ensures
            n == counters_remaining(self@),
    {
        match self.total_count {
            Some(total_count) => match self.completed_count.checked_add(self.active_count) {
                Some(occupied) => Some(total_count.saturating_sub(occupied)),
                None => Some(0),
            },
            None => None,
        }
    }
}

} // verus!
