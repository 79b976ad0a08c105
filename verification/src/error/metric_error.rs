//! Errors returned by live metric transitions.

use vstd::prelude::*;
use vstd::string::StringExecFns;

use crate::duration_text::{append_decimal, decimal};
use crate::text::{debug_quote, debug_quoted};

verus! {

/// Kind of constrained metric state transition.
#[derive(Clone, Copy, Debug, PartialEq, Eq, Structural)]
pub enum MetricTransition {
    /// Moves work between the not-started and active states.
    Start,
    /// Moves work between the active and unclassified-completed states.
    Complete,
    /// Moves work between the active and succeeded states.
    Succeed,
    /// Moves work between the active and failed states.
    Fail,
    /// Moves work between the active and cancelled states.
    Cancel,
}

/// The stable name of a transition.
pub open spec fn transition_name(t: MetricTransition) -> Seq<char> {
    match t {
        MetricTransition::Start => "start"@,
        MetricTransition::Complete => "complete"@,
        MetricTransition::Succeed => "succeed"@,
        MetricTransition::Fail => "fail"@,
        MetricTransition::Cancel => "cancel"@,
    }
}

impl MetricTransition {
    /// Returns the stable transition name used in metric errors.
    pub fn as_str(self) -> (name: &'static str)
        ensures
            name@ == transition_name(self),
    {
        match self {
            MetricTransition::Start => "start",
            MetricTransition::Complete => "complete",
            MetricTransition::Succeed => "succeed",
            MetricTransition::Fail => "fail",
            MetricTransition::Cancel => "cancel",
        }
    }
}

/// Failure while reading or mutating one stateful metric.
#[derive(Clone, Debug, PartialEq, Eq)]
pub enum MetricError {
    /// The enclosing progress operation has already been closed.
    Closed {
        /// Stable ID of the metric that rejected the update.
        metric_id: String,
    },
    /// A transition attempted to remove more work than its source state held.
    InsufficientCount {
        /// Stable ID of the metric that rejected the update.
        metric_id: String,
        /// Requested constrained state transition.
        transition: MetricTransition,
        /// Amount requested by the transition.
        requested: u64,
        /// Work available in the source state.
        available: u64,
    },
    /// A transition would occupy more work than the configured total permits.
    TotalExceeded {
        /// Stable ID of the metric that rejected the update.
        metric_id: String,
        /// Configured metric total.
        total: u64,
        /// Active plus completed work after the rejected transition.
        attempted: u64,
    },
    /// A requested total is lower than active plus completed work.
    TotalBelowOccupied {
        /// Stable ID of the metric that rejected the total update.
        metric_id: String,
        /// Requested replacement total.
        total: u64,
        /// Active plus completed work already present.
        occupied: u64,
    },
    /// Arithmetic needed to preserve metric invariants overflowed.
    CountOverflow {
        /// Stable ID of the metric whose arithmetic overflowed.
        metric_id: String,
    },
    /// A thread panicked while holding this metric's state lock.
    StatePoisoned {
        /// Stable ID of the metric whose state cannot be read safely.
        metric_id: String,
    },
}

impl MetricError {
    /// Whether this is the closed-operation error for `id`.
    pub open spec fn is_closed_for(self, id: Seq<char>) -> bool {
        match self {
            MetricError::Closed { metric_id } => metric_id@ == id,
            _ => false,
        }
    }

    /// Whether this is the overflow error for `id`.
    pub open spec fn is_overflow_for(self, id: Seq<char>) -> bool {
        match self {
            MetricError::CountOverflow { metric_id } => metric_id@ == id,
            _ => false,
        }
    }

    /// Whether this is the insufficient-count error with exactly these fields.
    pub open spec fn is_insufficient_for(
        self,
        id: Seq<char>,
        t: MetricTransition,
        requested: u64,
        available: u64,
    ) -> bool {
        match self {
            MetricError::InsufficientCount { metric_id, transition, requested: r, available: a } => {
                metric_id@ == id && transition == t && r == requested && a == available
            },
            _ => false,
        }
    }

    /// Whether this is the total-exceeded error with exactly these fields.
    pub open spec fn is_total_exceeded_for(self, id: Seq<char>, total: u64, attempted: int) -> bool {
        match self {
            MetricError::TotalExceeded { metric_id, total: t, attempted: a } => {
                metric_id@ == id && t == total && a == attempted
            },
            _ => false,
        }
    }
}

/// The metric whose update an error rejected.
pub open spec fn metric_error_subject(e: MetricError) -> Seq<char> {
    match e {
        MetricError::Closed { metric_id } => metric_id@,
        MetricError::InsufficientCount { metric_id, .. } => metric_id@,
        MetricError::TotalExceeded { metric_id, .. } => metric_id@,
        MetricError::TotalBelowOccupied { metric_id, .. } => metric_id@,
        MetricError::CountOverflow { metric_id } => metric_id@,
        MetricError::StatePoisoned { metric_id } => metric_id@,
    }
}

/// The explanation of a metric error, given the quoted form of its metric ID.
pub open spec fn metric_error_text(e: MetricError, quoted: Seq<char>) -> Seq<char> {
    match e {
        MetricError::Closed { .. } => "metric "@ + quoted + " is closed"@,
        MetricError::InsufficientCount { transition, requested, available, .. } => "metric "@
            + quoted + " cannot "@ + transition_name(transition) + " "@ + decimal(requested as nat)
            + " work items because only "@ + decimal(available as nat) + " are available"@,
        MetricError::TotalExceeded { total, attempted, .. } => "metric "@ + quoted
            + " would occupy "@ + decimal(attempted as nat) + " work items above total "@
            + decimal(total as nat),
        MetricError::TotalBelowOccupied { total, occupied, .. } => "metric "@ + quoted + " total "@
            + decimal(total as nat) + " is below occupied work "@ + decimal(occupied as nat),
        MetricError::CountOverflow { .. } => "counts for metric "@ + quoted + " overflowed"@,
        MetricError::StatePoisoned { .. } => "state lock for metric "@ + quoted + " is poisoned"@,
    }
}

impl MetricError {
    /// Returns the ID of the metric whose update was rejected.
    pub fn metric_id(&self) -> (id: &str)
        ensures
            id@ == metric_error_subject(*self),
    {
        match self {
            MetricError::Closed { metric_id } => metric_id.as_str(),
            MetricError::InsufficientCount { metric_id, .. } => metric_id.as_str(),
            MetricError::TotalExceeded { metric_id, .. } => metric_id.as_str(),
            MetricError::TotalBelowOccupied { metric_id, .. } => metric_id.as_str(),
            MetricError::CountOverflow { metric_id } => metric_id.as_str(),
            MetricError::StatePoisoned { metric_id } => metric_id.as_str(),
        }
    }

    /// Explains the rejected metric operation, writing the metric ID as
    /// `quoted_id`.
    pub fn message_with_quoted_id(&self, quoted_id: &str) -> (m: String)
        ensures
            m@ == metric_error_text(*self, quoted_id@),
    {
        let mut m = String::new();
        match self {
            MetricError::Closed { .. } => {
                m.append("metric ");
                m.append(quoted_id);
                m.append(" is closed");
            },
            MetricError::InsufficientCount { transition, requested, available, .. } => {
                m.append("metric ");
                m.append(quoted_id);
                m.append(" cannot ");
                m.append(transition.as_str());
                m.append(" ");
                append_decimal(&mut m, *requested as u128);
                m.append(" work items because only ");
                append_decimal(&mut m, *available as u128);
                m.append(" are available");
            },
            MetricError::TotalExceeded { total, attempted, .. } => {
                m.append("metric ");
                m.append(quoted_id);
                m.append(" would occupy ");
                append_decimal(&mut m, *attempted as u128);
                m.append(" work items above total ");
                append_decimal(&mut m, *total as u128);
            },
            MetricError::TotalBelowOccupied { total, occupied, .. } => {
                m.append("metric ");
                m.append(quoted_id);
                m.append(" total ");
                append_decimal(&mut m, *total as u128);
                m.append(" is below occupied work ");
                append_decimal(&mut m, *occupied as u128);
            },
            MetricError::CountOverflow { .. } => {
                m.append("counts for metric ");
                m.append(quoted_id);
                m.append(" overflowed");
            },
            MetricError::StatePoisoned { .. } => {
                m.append("state lock for metric ");
                m.append(quoted_id);
                m.append(" is poisoned");
            },
        }
        m
    }

    /// Explains the rejected metric operation, with the metric ID in its
    /// `Debug` form.
    pub fn message(&self) -> (m: String)
        ensures
            m@ == metric_error_text(*self, debug_quoted(metric_error_subject(*self))),
    {
        let quoted = debug_quote(self.metric_id());
        self.message_with_quoted_id(quoted.as_str())
    }
}

} // verus!
