//! A progress reporter that ignores every event.

use vstd::prelude::*;

verus! {

/// Progress reporter that ignores all events.
#[derive(Debug, Default, Clone, Copy, PartialEq, Eq)]
pub struct NoOpProgressReporter;

} // verus!
