//! Lifecycle state values for one progress operation.

use vstd::prelude::*;

verus! {

/// Lifecycle state visible to metric transition errors.
#[derive(Clone, Copy, Debug, PartialEq, Eq, Structural)]
pub enum OperationLifecycle {
    /// Metric transitions may enter the operation.
    Open,
    /// New transitions are rejected while terminal validation runs.
    Finishing,
    /// The operation can no longer be mutated.
    Closed,
}

} // verus!
