//! Structured errors for progress configuration, state and delivery.

pub(crate) mod completion_error;
pub(crate) mod configuration_error;
pub(crate) mod delivery_error;
pub(crate) mod emission_error;
mod finish_error;
pub(crate) mod metric_error;
mod reporter_error;
mod progress_error;
mod start_error;
pub(crate) mod terminal_error;
pub(crate) mod validation_error;

pub use metric_error::MetricError;
pub use metric_error::MetricTransition;
pub use completion_error::CompletionError;
pub use configuration_error::ConfigurationError;
pub use reporter_error::ReportError;
pub use reporter_error::ReporterError;
pub use delivery_error::DeliveryError;
pub use emission_error::EmissionError;
pub use finish_error::FinishError;
pub use start_error::StartError;
pub use terminal_error::TerminalError;
pub use progress_error::ProgressError;
pub use validation_error::ValidationError;
