//! The single error form covering validation, metric and reporter failures.

use vstd::prelude::*;

use crate::error::{MetricError, ReportError, ValidationError};
use crate::error::metric_error::{metric_error_subject, metric_error_text};
use crate::error::validation_error::{validation_error_subject, validation_error_text};
use crate::text::{debug_quote, debug_quoted};

verus! {

/// Complete error returned from non-terminal progress operations.
#[derive(Clone, Debug, PartialEq, Eq)]
pub enum ProgressError {
    /// Caller supplied invalid state.
    Validation(ValidationError),
    /// A stateful metric rejected an operation.
    Metric(Box<MetricError>),
    /// The reporter rejected an event.
    Report(ReportError),
}

/// The identifier a progress error writes in quotes, or the empty text for
/// errors that quote none.
pub open spec fn progress_error_subject(e: ProgressError) -> Seq<char> {
    match e {
        ProgressError::Validation(v) => validation_error_subject(v),
        ProgressError::Metric(m) => metric_error_subject(*m),
        ProgressError::Report(_) => Seq::empty(),
    }
}

/// The explanation of a progress error, given the quoted form of its subject.
pub open spec fn progress_error_text(e: ProgressError, quoted: Seq<char>) -> Seq<char> {
    match e {
        ProgressError::Validation(v) => validation_error_text(v, quoted),
        ProgressError::Metric(m) => metric_error_text(*m, quoted),
        ProgressError::Report(r) => r@,
    }
}

impl ProgressError {
    /// Returns the identifier this error quotes, or `""` when it quotes none.
    pub fn subject(&self) -> (s: &str)
        ensures
            s@ == progress_error_subject(*self),
    {
        proof {
            reveal_strlit("");
        }
        match self {
            ProgressError::Validation(v) => v.subject(),
            ProgressError::Metric(m) => m.metric_id(),
            ProgressError::Report(_) => "",
        }
    }

    /// Explains the failure, writing its subject as `quoted`.
    pub fn message_with_quoted_id(&self, quoted: &str) -> (m: String)
        ensures
            m@ == progress_error_text(*self, quoted@),
    {
        match self {
            ProgressError::Validation(v) => v.message_with_quoted_id(quoted),
            ProgressError::Metric(m) => m.message_with_quoted_id(quoted),
            ProgressError::Report(r) => r.source_error().to_owned(),
        }
    }

    /// Explains the failure, with its subject in `Debug` form.
    pub fn message(&self) -> (m: String)
        ensures
            m@ == progress_error_text(*self, debug_quoted(progress_error_subject(*self))),
    {
        let quoted = debug_quote(self.subject());
        self.message_with_quoted_id(quoted.as_str())
    }
}

impl From<ValidationError> for ProgressError {
    /// Converts validation failure.
    fn from(error: ValidationError) -> (e: Self)
        ensures
            e == ProgressError::Validation(error),
    {
        ProgressError::Validation(error)
    }
}

impl vstd::std_specs::convert::FromSpecImpl<ValidationError> for ProgressError {
    open spec fn obeys_from_spec() -> bool {
        true
    }

    open spec fn from_spec(v: ValidationError) -> ProgressError {
        ProgressError::Validation(v)
    }
}

impl From<MetricError> for ProgressError {
    /// Converts a metric state failure.
    fn from(error: MetricError) -> (e: Self)
        ensures
            e == ProgressError::Metric(Box::new(error)),
    {
        ProgressError::Metric(Box::new(error))
    }
}

impl vstd::std_specs::convert::FromSpecImpl<MetricError> for ProgressError {
    open spec fn obeys_from_spec() -> bool {
        true
    }

    open spec fn from_spec(v: MetricError) -> ProgressError {
        ProgressError::Metric(Box::new(v))
    }
}

impl From<ReportError> for ProgressError {
    /// Converts reporter failure.
    fn from(error: ReportError) -> (e: Self)
        ensures
            e == ProgressError::Report(error),
    {
        ProgressError::Report(error)
    }
}

impl vstd::std_specs::convert::FromSpecImpl<ReportError> for ProgressError {
    open spec fn obeys_from_spec() -> bool {
        true
    }

    open spec fn from_spec(v: ReportError) -> ProgressError {
        ProgressError::Report(v)
    }
}

} // verus!
