//! Errors while constructing or delivering events.

use vstd::prelude::*;
use vstd::string::StringExecFns;

use crate::error::DeliveryError;
use crate::error::delivery_error::delivery_error_text;

verus! {

/// Failure while emitting an event.
#[derive(Debug, PartialEq, Eq)]
#[non_exhaustive]
pub enum EmissionError {
    /// The operation's event sequence space is exhausted.
    SequenceExhausted,
    /// A reporter rejected one complete event.
    Delivery(DeliveryError),
}

/// The explanation of an emission failure.
pub open spec fn emission_error_text(e: EmissionError) -> Seq<char> {
    match e {
        EmissionError::SequenceExhausted => "progress event sequence is exhausted"@,
        EmissionError::Delivery(d) => delivery_error_text(d@.0, d@.1),
    }
}

impl EmissionError {
    /// Explains the emission failure.
    pub fn message(&self) -> (m: String)
        ensures
            m@ == emission_error_text(*self),
    {
        match self {
            EmissionError::SequenceExhausted => String::from_str("progress event sequence is exhausted"),
            EmissionError::Delivery(d) => d.message(),
        }
    }
}

} // verus!
