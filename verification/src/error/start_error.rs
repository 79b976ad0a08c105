//! Errors encountered while starting a progress operation.

use vstd::prelude::*;
use vstd::string::StringExecFns;

use crate::error::{ConfigurationError, DeliveryError, EmissionError};
use crate::error::configuration_error::{configuration_error_subject, configuration_error_text};
use crate::error::delivery_error::delivery_error_text;
use crate::text::{debug_quote, debug_quoted};

verus! {

/// Failure before a usable progress operation can be returned.
#[derive(Debug, PartialEq, Eq)]
#[non_exhaustive]
pub enum StartError {
    /// Fixed operation metadata is invalid.
    InvalidConfiguration(ConfigurationError),
    /// The process-local operation ID space is exhausted.
    OperationIdExhausted,
    /// Started was attempted but rejected by the reporter.
    Delivery(DeliveryError),
}

/// The start failure that an emission failure at start means.
pub open spec fn start_error_of_emission(e: EmissionError) -> StartError {
    match e {
        EmissionError::Delivery(d) => StartError::Delivery(d),
        EmissionError::SequenceExhausted => StartError::OperationIdExhausted,
    }
}

impl From<ConfigurationError> for StartError {
    /// Converts configuration validation into a start failure.
    fn from(error: ConfigurationError) -> (e: Self)
        ensures
            e == StartError::InvalidConfiguration(error),
    {
        StartError::InvalidConfiguration(error)
    }
}

impl vstd::std_specs::convert::FromSpecImpl<ConfigurationError> for StartError {
    open spec fn obeys_from_spec() -> bool {
        true
    }

    open spec fn from_spec(v: ConfigurationError) -> StartError {
        StartError::InvalidConfiguration(v)
    }
}

impl From<EmissionError> for StartError {
    /// Converts the only possible start-time emission failures.
    fn from(error: EmissionError) -> (e: Self)
        ensures
            e == start_error_of_emission(error),
    {
        match error {
            EmissionError::Delivery(error) => StartError::Delivery(error),
            EmissionError::SequenceExhausted => StartError::OperationIdExhausted,
        }
    }
}

impl vstd::std_specs::convert::FromSpecImpl<EmissionError> for StartError {
    open spec fn obeys_from_spec() -> bool {
        true
    }

    open spec fn from_spec(v: EmissionError) -> StartError {
        start_error_of_emission(v)
    }
}

/// The identifier a start error writes in quotes, or the empty text for
/// errors that quote none.
pub open spec fn start_error_subject(e: StartError) -> Seq<char> {
    match e {
        StartError::InvalidConfiguration(c) => configuration_error_subject(c),
        _ => Seq::empty(),
    }
}

/// The explanation of a start failure, given the quoted form of its subject.
pub open spec fn start_error_text(e: StartError, quoted: Seq<char>) -> Seq<char> {
    match e {
        StartError::InvalidConfiguration(c) => configuration_error_text(c, quoted),
        StartError::OperationIdExhausted => "progress operation IDs are exhausted"@,
        StartError::Delivery(d) => delivery_error_text(d@.0, d@.1),
    }
}

impl StartError {
    /// Returns the identifier this error quotes, or `""` when it quotes none.
    pub fn subject(&self) -> (s: &str)
        ensures
            s@ == start_error_subject(*self),
    {
        proof {
            reveal_strlit("");
        }
        match self {
            StartError::InvalidConfiguration(c) => c.subject(),
            _ => "",
        }
    }

    /// Explains the start failure, writing its subject as `quoted`.
    pub fn message_with_quoted_id(&self, quoted: &str) -> (m: String)
        ensures
            m@ == start_error_text(*self, quoted@),
    {
        match self {
            StartError::InvalidConfiguration(c) => c.message_with_quoted_id(quoted),
            StartError::OperationIdExhausted => String::from_str("progress operation IDs are exhausted"),
            StartError::Delivery(d) => d.message(),
        }
    }

    /// Explains the start failure, with its subject in `Debug` form.
    pub fn message(&self) -> (m: String)
        ensures
            m@ == start_error_text(*self, debug_quoted(start_error_subject(*self))),
    {
        let quoted = debug_quote(self.subject());
        self.message_with_quoted_id(quoted.as_str())
    }
}

} // verus!
