//! Errors explaining why checked successful completion is unavailable.

use vstd::prelude::*;
use vstd::string::StringExecFns;

use crate::duration_text::{append_decimal, decimal};
use crate::text::{debug_quote, debug_quoted};

verus! {

/// Metric state that prevents checked successful completion.
#[derive(Clone, Debug, PartialEq, Eq)]
#[non_exhaustive]
pub enum CompletionError {
    /// Active work remains for one metric.
    ActiveWork {
        /// Stable metric ID.
        metric_id: String,
        /// Number of active work items.
        active: u64,
    },
    /// A known metric total has not been reached.
    IncompleteTotal {
        /// Stable metric ID.
        metric_id: String,
        /// Number of completed work items.
        completed: u64,
        /// Required total work items.
        total: u64,
    },
}

/// The metric that prevents successful completion.
pub open spec fn completion_error_subject(e: CompletionError) -> Seq<char> {
    match e {
        CompletionError::ActiveWork { metric_id, .. } => metric_id@,
        CompletionError::IncompleteTotal { metric_id, .. } => metric_id@,
    }
}

/// The explanation of a completion error, given the quoted form of its
/// metric ID.
pub open spec fn completion_error_text(e: CompletionError, quoted: Seq<char>) -> Seq<char> {
    match e {
        CompletionError::ActiveWork { active, .. } => "metric "@ + quoted + " still has "@
            + decimal(active as nat) + " active work items at finish"@,
        CompletionError::IncompleteTotal { completed, total, .. } => "metric "@ + quoted
            + " completed "@ + decimal(completed as nat) + " work items but total is "@
            + decimal(total as nat),
    }
}

impl CompletionError {
    /// Returns the ID of the metric that prevents completion.
    pub fn metric_id(&self) -> (id: &str)
        ensures
            id@ == completion_error_subject(*self),
    {
        match self {
            CompletionError::ActiveWork { metric_id, .. } => metric_id.as_str(),
            CompletionError::IncompleteTotal { metric_id, .. } => metric_id.as_str(),
        }
    }

    /// Explains why completion is unavailable, writing the metric ID as
    /// `quoted_id`.
    pub fn message_with_quoted_id(&self, quoted_id: &str) -> (m: String)
        ensures
            m@ == completion_error_text(*self, quoted_id@),
    {
        let mut m = String::new();
        match self {
            CompletionError::ActiveWork { active, .. } => {
                m.append("metric ");
                m.append(quoted_id);
                m.append(" still has ");
                append_decimal(&mut m, *active as u128);
                m.append(" active work items at finish");
            },
            CompletionError::IncompleteTotal { completed, total, .. } => {
                m.append("metric ");
                m.append(quoted_id);
                m.append(" completed ");
                append_decimal(&mut m, *completed as u128);
                m.append(" work items but total is ");
                append_decimal(&mut m, *total as u128);
            },
        }
        m
    }

    /// Explains why completion is unavailable, with the metric ID in its
    /// `Debug` form.
    pub fn message(&self) -> (m: String)
        ensures
            m@ == completion_error_text(*self, debug_quoted(completion_error_subject(*self))),
    {
        let quoted = debug_quote(self.metric_id());
        self.message_with_quoted_id(quoted.as_str())
    }
}

} // verus!
