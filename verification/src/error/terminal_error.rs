//! Errors returned after a terminal emission is attempted.

use vstd::prelude::*;
use vstd::string::StringExecFns;

use crate::error::EmissionError;
use crate::error::emission_error::emission_error_text;
use crate::progress::DURATION_MAX_NANOS;

verus! {

/// Terminal emission failure paired with elapsed operation time.
#[derive(Debug, PartialEq, Eq)]
pub struct TerminalError {
    elapsed: u128,
    source: EmissionError,
}

impl TerminalError {
    /// Elapsed times are durations.
    #[verifier::type_invariant]
    closed spec fn elapsed_in_range(&self) -> bool {
        self.elapsed <= DURATION_MAX_NANOS
    }

    /// The elapsed operation time, in nanoseconds, recorded by this error.
    pub closed spec fn elapsed_spec(&self) -> u128 {
        self.elapsed
    }

    /// The emission failure recorded by this error.
    pub closed spec fn source_spec(&self) -> EmissionError {
        self.source
    }

    /// Creates a terminal error.
    pub fn new(elapsed: u128, source: EmissionError) -> (e: Self)
        requires
            elapsed <= DURATION_MAX_NANOS,
        ensures
            e.elapsed_spec() == elapsed,
            e.source_spec() == source,
    {
        TerminalError { elapsed, source }
    }

    /// Returns elapsed operation time at terminal failure, in nanoseconds.
    pub fn elapsed(&self) -> (n: u128)
        ensures
            n == self.elapsed_spec(),
            n <= DURATION_MAX_NANOS,
    {
        proof {
            use_type_invariant(self);
        }
        self.elapsed
    }

    /// Returns the emission failure.
    pub fn emission_error(&self) -> (e: &EmissionError)
        ensures
            *e == self.source_spec(),
    {
        &self.source
    }

    /// Consumes the terminal error and returns its emission failure.
    pub fn into_emission_error(self) -> (e: EmissionError)
        ensures
            e == self.source_spec(),
    {
        self.source
    }

    /// Consumes the terminal error and returns elapsed time and failure.
    pub fn into_parts(self) -> (parts: (u128, EmissionError))
        ensures
            parts.0 == self.elapsed_spec(),
            parts.1 == self.source_spec(),
    {
        (self.elapsed, self.source)
    }
}

/// The text that Rust's `Debug` formatting writes for a duration of `secs`
/// seconds and `subsec_nanos` nanoseconds, such as `1.5s` or `250ms`.
pub uninterp spec fn duration_debug(secs: u64, subsec_nanos: u32) -> Seq<char>;

/// Writes a duration in its `Debug` form, as `format!("{:?}", duration)` does.
///
/// Trusted: the result is whatever std's `Debug` implementation for
/// `Duration` writes; its unit choice and decimal rounding are not restated
/// here.
#[verifier::external_body]
fn duration_debug_text(secs: u64, subsec_nanos: u32) -> (text: String)
    requires
        subsec_nanos < 1_000_000_000,
    ensures
        text@ == duration_debug(secs, subsec_nanos),
{
    format!("{:?}", std::time::Duration::new(secs, subsec_nanos))
}

/// The explanation of a terminal failure, given the text of its elapsed time.
pub open spec fn terminal_error_text(e: TerminalError, elapsed: Seq<char>) -> Seq<char> {
    "terminal progress report failed after "@ + elapsed + ": "@ + emission_error_text(
        e.source_spec(),
    )
}

/// The `Debug` text of an elapsed time of `nanos` nanoseconds.
pub open spec fn elapsed_debug(nanos: u128) -> Seq<char> {
    duration_debug((nanos / 1_000_000_000) as u64, (nanos % 1_000_000_000) as u32)
}

impl TerminalError {
    /// Explains the terminal failure, writing the elapsed time as `elapsed`.
    pub fn message_with_elapsed_text(&self, elapsed: &str) -> (m: String)
        ensures
            m@ == terminal_error_text(*self, elapsed@),
    {
        let mut m = String::from_str("terminal progress report failed after ");
        m.append(elapsed);
        m.append(": ");
        let cause = self.source.message();
        m.append(cause.as_str());
        m
    }

    /// Explains the terminal failure, with the elapsed time in the `Debug`
    /// form of a duration.
    pub fn message(&self) -> (m: String)
        ensures
            m@ == terminal_error_text(*self, elapsed_debug(self.elapsed_spec())),
    {
        proof {
            use_type_invariant(self);
        }
        let secs = (self.elapsed / 1_000_000_000) as u64;
        let nanos = (self.elapsed % 1_000_000_000) as u32;
        let text = duration_debug_text(secs, nanos);
        self.message_with_elapsed_text(text.as_str())
    }
}

} // verus!
