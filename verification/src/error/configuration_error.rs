//! Errors found while validating fixed progress configuration.

use vstd::prelude::*;
use vstd::string::StringExecFns;

use crate::duration_text::{append_decimal, decimal};
use crate::text::{debug_quote, debug_quoted};

verus! {

/// Invalid fixed metadata supplied to a progress operation.
#[derive(Clone, Debug, PartialEq, Eq)]
#[non_exhaustive]
pub enum ConfigurationError {
    /// An operation was started without metrics.
    NoMetrics,
    /// A metric ID is empty or whitespace only.
    EmptyMetricId {
        /// Zero-based metric position in the builder.
        index: usize,
    },
    /// A metric name is empty or whitespace only.
    EmptyMetricName {
        /// ID of the malformed metric.
        metric_id: String,
    },
    /// Two configured metrics have the same ID.
    DuplicateMetricId {
        /// Duplicated stable metric ID.
        metric_id: String,
    },
    /// An operation attribute key is empty or whitespace only.
    EmptyAttributeKey {
        /// Malformed attribute key.
        key: String,
    },
    /// A stage ID is empty or whitespace only.
    EmptyStageId,
    /// A stage name is empty or whitespace only.
    EmptyStageName,
    /// Stage position and total were not supplied together.
    IncompleteStagePosition,
    /// Stage position is outside its one-based total range.
    InvalidStagePosition {
        /// Invalid one-based position.
        position: u64,
        /// Declared number of stages.
        total: u64,
    },
}

/// The identifier a configuration error writes in quotes, or the empty text
/// for errors that quote none.
pub open spec fn configuration_error_subject(e: ConfigurationError) -> Seq<char> {
    match e {
        ConfigurationError::EmptyMetricName { metric_id } => metric_id@,
        ConfigurationError::DuplicateMetricId { metric_id } => metric_id@,
        ConfigurationError::EmptyAttributeKey { key } => key@,
        _ => Seq::empty(),
    }
}

/// The explanation of a configuration error, given the quoted form of its
/// subject.
pub open spec fn configuration_error_text(e: ConfigurationError, quoted: Seq<char>) -> Seq<char> {
    match e {
        ConfigurationError::NoMetrics => "a progress operation requires at least one metric"@,
        ConfigurationError::EmptyMetricId { index } => "metric at index "@ + decimal(index as nat)
            + " has an empty ID"@,
        ConfigurationError::EmptyMetricName { .. } => "metric "@ + quoted + " has an empty name"@,
        ConfigurationError::DuplicateMetricId { .. } => "metric ID "@ + quoted + " is duplicated"@,
        ConfigurationError::EmptyAttributeKey { .. } => "operation attribute key "@ + quoted
            + " is empty"@,
        ConfigurationError::EmptyStageId => "stage ID is empty"@,
        ConfigurationError::EmptyStageName => "stage name is empty"@,
        ConfigurationError::IncompleteStagePosition => "stage position and total must be supplied together"@,
        ConfigurationError::InvalidStagePosition { position, total } => "stage position "@
            + decimal(position as nat) + " is outside 1..="@ + decimal(total as nat),
    }
}

impl ConfigurationError {
    /// Returns the identifier this error quotes, or `""` when it quotes none.
    pub fn subject(&self) -> (s: &str)
        ensures
            s@ == configuration_error_subject(*self),
    {
        proof {
            reveal_strlit("");
        }
        match self {
            ConfigurationError::EmptyMetricName { metric_id } => metric_id.as_str(),
            ConfigurationError::DuplicateMetricId { metric_id } => metric_id.as_str(),
            ConfigurationError::EmptyAttributeKey { key } => key.as_str(),
            _ => "",
        }
    }

    /// Explains the configuration error, writing its subject as `quoted`.
    pub fn message_with_quoted_id(&self, quoted: &str) -> (m: String)
        ensures
            m@ == configuration_error_text(*self, quoted@),
    {
        let mut m = String::new();
        match self {
            ConfigurationError::NoMetrics => {
                m.append("a progress operation requires at least one metric");
            },
            ConfigurationError::EmptyMetricId { index } => {
                m.append("metric at index ");
                append_decimal(&mut m, *index as u128);
                m.append(" has an empty ID");
            },
            ConfigurationError::EmptyMetricName { .. } => {
                m.append("metric ");
                m.append(quoted);
                m.append(" has an empty name");
            },
            ConfigurationError::DuplicateMetricId { .. } => {
                m.append("metric ID ");
                m.append(quoted);
                m.append(" is duplicated");
            },
            ConfigurationError::EmptyAttributeKey { .. } => {
                m.append("operation attribute key ");
                m.append(quoted);
                m.append(" is empty");
            },
            ConfigurationError::EmptyStageId => {
                m.append("stage ID is empty");
            },
            ConfigurationError::EmptyStageName => {
                m.append("stage name is empty");
            },
            ConfigurationError::IncompleteStagePosition => {
                m.append("stage position and total must be supplied together");
            },
            ConfigurationError::InvalidStagePosition { position, total } => {
                m.append("stage position ");
                append_decimal(&mut m, *position as u128);
                m.append(" is outside 1..=");
                append_decimal(&mut m, *total as u128);
            },
        }
        m
    }

    /// Explains the configuration error, with its subject in `Debug` form.
    pub fn message(&self) -> (m: String)
        ensures
            m@ == configuration_error_text(*self, debug_quoted(configuration_error_subject(*self))),
    {
        let quoted = debug_quote(self.subject());
        self.message_with_quoted_id(quoted.as_str())
    }
}

} // verus!
