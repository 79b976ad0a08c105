//! Errors returned directly by reporter sinks.

use vstd::prelude::*;

verus! {

/// Reporter failure, carrying the reporter's own description of it.
#[derive(Clone, Debug, PartialEq, Eq)]
pub struct ReporterError {
    /// Text describing the original reporter failure.
    source: String,
}

impl View for ReporterError {
    type V = Seq<char>;

    closed spec fn view(&self) -> Seq<char> {
        self.source@
    }
}

impl ReporterError {
    /// Creates a reporter error from a stable message.
    pub fn message(message: &str) -> (e: Self)
        ensures
            e@ == message@,
    {
        ReporterError { source: message.to_owned() }
    }

    /// Returns the text of the original reporter error.
    pub fn source_error(&self) -> (text: &str)
        ensures
            text@ == self@,
    {
        self.source.as_str()
    }

    /// Returns an owned copy of this error.
    pub fn duplicate(&self) -> (e: Self)
        ensures
            e@ == self@,
    {
        ReporterError { source: self.source.clone() }
    }
}

/// Reporter failure in the single-error form used by [`crate::ProgressError`].
#[derive(Clone, Debug, PartialEq, Eq)]
pub struct ReportError {
    /// Text describing the original reporter failure.
    source: String,
}

impl View for ReportError {
    type V = Seq<char>;

    closed spec fn view(&self) -> Seq<char> {
        self.source@
    }
}

impl ReportError {
    /// Creates a reporter error from a stable message.
    pub fn message(message: &str) -> (e: Self)
        ensures
            e@ == message@,
    {
        ReportError { source: message.to_owned() }
    }

    /// Returns the text of the original reporter error.
    pub fn source_error(&self) -> (text: &str)
        ensures
            text@ == self@,
    {
        self.source.as_str()
    }
}

} // verus!
