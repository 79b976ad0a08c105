//! Structured validation failures in the single-error form.

use vstd::prelude::*;
use vstd::string::StringExecFns;

use crate::duration_text::{append_decimal, decimal};
use crate::text::{debug_quote, debug_quoted};

verus! {

/// Structured validation failure for progress configuration or snapshots.
#[derive(Clone, Debug, PartialEq, Eq)]
#[non_exhaustive]
pub enum ValidationError {
    /// An operation was started without metrics.
    NoMetrics,
    /// A metric ID is empty or whitespace only.
    EmptyMetricId {
        /// Zero-based metric position.
        index: usize,
    },
    /// A metric name is empty or whitespace only.
    EmptyMetricName {
        /// ID of the metric with the missing name.
        metric_id: String,
    },
    /// Two configured metrics have the same ID.
    DuplicateMetricId {
        /// Repeated metric ID.
        metric_id: String,
    },
    /// Arithmetic required to validate a count set overflowed.
    CountOverflow {
        /// Metric whose count arithmetic overflowed.
        metric_id: String,
    },
    /// Classified successful and failed counts exceed completed work.
    ClassifiedExceedsCompleted {
        /// Metric with contradictory classified counts.
        metric_id: String,
    },
    /// Completed plus active work exceeds a known total.
    CountsExceedTotal {
        /// Metric whose occupied work exceeds its total.
        metric_id: String,
    },
    /// A zero total was paired with nonzero dynamic counts.
    NonZeroCountsForZeroTotal {
        /// Zero-total metric containing dynamic counts.
        metric_id: String,
    },
    /// A stage ID is empty or whitespace only.
    EmptyStageId,
    /// A stage name is empty or whitespace only.
    EmptyStageName,
    /// Stage position and total were not supplied together.
    IncompleteStagePosition,
    /// Stage position is outside its one-based total range.
    InvalidStagePosition {
        /// Invalid one-based position.
        position: u64,
        /// Configured stage count.
        total: u64,
    },
    /// The process-local operation ID space has been exhausted.
    OperationIdExhausted,
    /// The event sequence space for one operation has been exhausted.
    SequenceExhausted,
}

/// The metric ID a validation error writes in quotes, or the empty text for
/// errors that quote none.
pub open spec fn validation_error_subject(e: ValidationError) -> Seq<char> {
    match e {
        ValidationError::EmptyMetricName { metric_id } => metric_id@,
        ValidationError::DuplicateMetricId { metric_id } => metric_id@,
        ValidationError::CountOverflow { metric_id } => metric_id@,
        ValidationError::ClassifiedExceedsCompleted { metric_id } => metric_id@,
        ValidationError::CountsExceedTotal { metric_id } => metric_id@,
        ValidationError::NonZeroCountsForZeroTotal { metric_id } => metric_id@,
        _ => Seq::empty(),
    }
}

/// The explanation of a validation error, given the quoted form of its
/// metric ID.
pub open spec fn validation_error_text(e: ValidationError, quoted: Seq<char>) -> Seq<char> {
    match e {
        ValidationError::NoMetrics => "a progress operation requires at least one metric"@,
        ValidationError::EmptyMetricId { index } => "metric at index "@ + decimal(index as nat)
            + " has an empty ID"@,
        ValidationError::EmptyMetricName { .. } => "metric "@ + quoted + " has an empty name"@,
        ValidationError::DuplicateMetricId { .. } => "metric ID "@ + quoted + " is duplicated"@,
        ValidationError::CountOverflow { .. } => "counts for metric "@ + quoted + " overflowed"@,
        ValidationError::ClassifiedExceedsCompleted { .. } =>
            "classified counts exceed completed work for metric "@ + quoted,
        ValidationError::CountsExceedTotal { .. } =>
            "completed plus active work exceeds total for metric "@ + quoted,
        ValidationError::NonZeroCountsForZeroTotal { .. } => "zero-total metric "@ + quoted
            + " has nonzero counts"@,
        ValidationError::EmptyStageId => "stage ID is empty"@,
        ValidationError::EmptyStageName => "stage name is empty"@,
        ValidationError::IncompleteStagePosition => "stage position and total must be supplied together"@,
        ValidationError::InvalidStagePosition { position, total } => "stage position "@ + decimal(
            position as nat,
        ) + " is outside 1..="@ + decimal(total as nat),
        ValidationError::OperationIdExhausted => "progress operation IDs are exhausted"@,
        ValidationError::SequenceExhausted => "progress event sequence is exhausted"@,
    }
}

impl ValidationError {
    /// Returns the metric ID this error quotes, or `""` when it quotes none.
    pub fn subject(&self) -> (s: &str)
        ensures
            s@ == validation_error_subject(*self),
    {
        proof {
            reveal_strlit("");
        }
        match self {
            ValidationError::EmptyMetricName { metric_id } => metric_id.as_str(),
            ValidationError::DuplicateMetricId { metric_id } => metric_id.as_str(),
            ValidationError::CountOverflow { metric_id } => metric_id.as_str(),
            ValidationError::ClassifiedExceedsCompleted { metric_id } => metric_id.as_str(),
            ValidationError::CountsExceedTotal { metric_id } => metric_id.as_str(),
            ValidationError::NonZeroCountsForZeroTotal { metric_id } => metric_id.as_str(),
            _ => "",
        }
    }

    /// Explains the validation failure, writing its metric ID as `quoted`.
    pub fn message_with_quoted_id(&self, quoted: &str) -> (m: String)
        ensures
            m@ == validation_error_text(*self, quoted@),
    {
        let mut m = String::new();
        match self {
            ValidationError::NoMetrics => {
                m.append("a progress operation requires at least one metric");
            },
            ValidationError::EmptyMetricId { index } => {
                m.append("metric at index ");
                append_decimal(&mut m, *index as u128);
                m.append(" has an empty ID");
            },
            ValidationError::EmptyMetricName { .. } => {
                m.append("metric ");
                m.append(quoted);
                m.append(" has an empty name");
            },
            ValidationError::DuplicateMetricId { .. } => {
                m.append("metric ID ");
                m.append(quoted);
                m.append(" is duplicated");
            },
            ValidationError::CountOverflow { .. } => {
                m.append("counts for metric ");
                m.append(quoted);
                m.append(" overflowed");
            },
            ValidationError::ClassifiedExceedsCompleted { .. } => {
                m.append("classified counts exceed completed work for metric ");
                m.append(quoted);
            },
            ValidationError::CountsExceedTotal { .. } => {
                m.append("completed plus active work exceeds total for metric ");
                m.append(quoted);
            },
            ValidationError::NonZeroCountsForZeroTotal { .. } => {
                m.append("zero-total metric ");
                m.append(quoted);
                m.append(" has nonzero counts");
            },
            ValidationError::EmptyStageId => {
                m.append("stage ID is empty");
            },
            ValidationError::EmptyStageName => {
                m.append("stage name is empty");
            },
            ValidationError::IncompleteStagePosition => {
                m.append("stage position and total must be supplied together");
            },
            ValidationError::InvalidStagePosition { position, total } => {
                m.append("stage position ");
                append_decimal(&mut m, *position as u128);
                m.append(" is outside 1..=");
                append_decimal(&mut m, *total as u128);
            },
            ValidationError::OperationIdExhausted => {
                m.append("progress operation IDs are exhausted");
            },
            ValidationError::SequenceExhausted => {
                m.append("progress event sequence is exhausted");
            },
        }
        m
    }

    /// Explains the validation failure, with its metric ID in `Debug` form.
    pub fn message(&self) -> (m: String)
        ensures
            m@ == validation_error_text(*self, debug_quoted(validation_error_subject(*self))),
    {
        let quoted = debug_quote(self.subject());
        self.message_with_quoted_id(quoted.as_str())
    }
}

} // verus!
