//! Errors returned by checked successful completion.

use vstd::prelude::*;
use vstd::string::StringExecFns;

use crate::error::{CompletionError, TerminalError};
use crate::error::completion_error::{completion_error_subject, completion_error_text};
use crate::error::terminal_error::{elapsed_debug, terminal_error_text};
use crate::text::{debug_quote, debug_quoted};

verus! {

/// Failure from checked finish after the operation has been consumed.
#[derive(Debug, PartialEq, Eq)]
pub enum FinishError {
    /// Completion validation failed before terminal emission.
    Incomplete {
        /// Elapsed operation time in nanoseconds, sampled before validation.
        elapsed: u128,
        /// First completion invariant that failed.
        source: CompletionError,
    },
    /// A terminal emission was attempted and failed permanently.
    Terminal(TerminalError),
}

impl FinishError {
    /// Returns elapsed operation time sampled by the finish attempt.
    pub fn elapsed(&self) -> (n: u128)
        ensures
            n == match self {
                FinishError::Incomplete { elapsed, .. } => *elapsed,
                FinishError::Terminal(error) => error.elapsed_spec(),
            },
    {
        match self {
            FinishError::Incomplete { elapsed, .. } => *elapsed,
            FinishError::Terminal(error) => error.elapsed(),
        }
    }

    /// Returns the completion error when validation failed.
    pub fn completion_error(&self) -> (e: Option<&CompletionError>)
        ensures
            match self {
                FinishError::Incomplete { source, .. } => e == Some(source),
                FinishError::Terminal(_) => e is None,
            },
    {
        match self {
            FinishError::Incomplete { source, .. } => Some(source),
            FinishError::Terminal(_) => None,
        }
    }
}

/// The explanation of a finish failure, given the quoted form of the metric
/// ID of an incomplete metric and the text of a terminal failure's elapsed
/// time; each is used only by the variant it concerns.
pub open spec fn finish_error_text(e: FinishError, quoted: Seq<char>, elapsed: Seq<char>) -> Seq<char> {
    match e {
        FinishError::Incomplete { source, .. } => completion_error_text(source, quoted),
        FinishError::Terminal(t) => terminal_error_text(t, elapsed),
    }
}

impl FinishError {
    /// Explains the finish failure, writing an incomplete metric's ID as
    /// `quoted_id` and a terminal failure's elapsed time as `elapsed`.
    pub fn message_with(&self, quoted_id: &str, elapsed: &str) -> (m: String)
        ensures
            m@ == finish_error_text(*self, quoted_id@, elapsed@),
    {
        match self {
            FinishError::Incomplete { source, .. } => source.message_with_quoted_id(quoted_id),
            FinishError::Terminal(t) => t.message_with_elapsed_text(elapsed),
        }
    }

    /// Explains the finish failure: the completion failure with its metric ID
    /// in `Debug` form, or the terminal failure with its elapsed time in the
    /// `Debug` form of a duration.
    pub fn message(&self) -> (m: String)
        ensures
            m@ == match *self {
                FinishError::Incomplete { source, .. } => completion_error_text(
                    source,
                    debug_quoted(completion_error_subject(source)),
                ),
                FinishError::Terminal(t) => terminal_error_text(t, elapsed_debug(t.elapsed_spec())),
            },
    {
        match self {
            FinishError::Incomplete { source, .. } => source.message(),
            FinishError::Terminal(t) => t.message(),
        }
    }
}

} // verus!
