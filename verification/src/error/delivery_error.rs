//! Errors associated with one concrete event delivery attempt.

use vstd::prelude::*;
use vstd::string::StringExecFns;

use crate::duration_text::{append_decimal, decimal};
use crate::event::phase_name;

use crate::error::ReporterError;
use crate::event::{Event, EventView};

verus! {

/// Failure while delivering one complete event to a reporter.
#[derive(Debug, PartialEq, Eq)]
pub struct DeliveryError {
    event: Box<Event>,
    source: ReporterError,
}

impl View for DeliveryError {
    type V = (EventView, Seq<char>);

    closed spec fn view(&self) -> (EventView, Seq<char>) {
        (self.event@, self.source@)
    }
}

impl DeliveryError {
    /// Creates a delivery error retaining the failed event and sink error.
    pub fn new(event: Event, source: ReporterError) -> (e: Self)
        ensures
            e@ == (event@, source@),
    {
        DeliveryError { event: Box::new(event), source }
    }

    /// Returns the complete event whose delivery failed.
    pub fn event(&self) -> (e: &Event)
        ensures
            e@ == self@.0,
    {
        &self.event
    }

    /// Returns the original reporter error.
    pub fn reporter_error(&self) -> (e: &ReporterError)
        ensures
            e@ == self@.1,
    {
        &self.source
    }

    /// Consumes the error and returns its failed event.
    pub fn into_event(self) -> (e: Event)
        ensures
            e@ == self@.0,
    {
        *self.event
    }

    /// Consumes the error and returns its reporter error.
    pub fn into_reporter_error(self) -> (e: ReporterError)
        ensures
            e@ == self@.1,
    {
        self.source
    }

    /// Consumes the error and returns the event with its reporter error.
    pub fn into_parts(self) -> (parts: (Event, ReporterError))
        ensures
            parts.0@ == self@.0,
            parts.1@ == self@.1,
    {
        (*self.event, self.source)
    }
}

/// The explanation of a failed delivery of event `event` with reporter
/// message `reporter`.
pub open spec fn delivery_error_text(event: EventView, reporter: Seq<char>) -> Seq<char> {
    "delivery of "@ + phase_name(event.phase) + " event for operation "@ + decimal(
        event.operation_id as nat,
    ) + " sequence "@ + decimal(event.sequence as nat) + " failed: "@ + reporter
}

impl DeliveryError {
    /// Explains the failed delivery: the event's phase, operation and
    /// sequence, then the reporter's message.
    pub fn message(&self) -> (m: String)
        ensures
            m@ == delivery_error_text(self@.0, self@.1),
    {
        let mut m = String::new();
        m.append("delivery of ");
        m.append(self.event.phase().as_str());
        m.append(" event for operation ");
        append_decimal(&mut m, self.event.operation_id() as u128);
        m.append(" sequence ");
        append_decimal(&mut m, self.event.sequence() as u128);
        m.append(" failed: ");
        m.append(self.source.source_error());
        m
    }
}

} // verus!
