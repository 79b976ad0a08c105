//! Lifecycle state shared by an operation and its metric updates.

mod operation_gate;
mod operation_lifecycle;

pub use operation_gate::GateLifecycle;
pub use operation_gate::OperationGate;
pub use operation_lifecycle::OperationLifecycle;
