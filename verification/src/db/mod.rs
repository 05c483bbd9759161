//! The rows the controller keeps in its store, and the in-memory request
//! log the dispatcher counts against.

mod model_alarm;
mod model_oblique_strategy;
mod model_oblique_stratergy;
mod model_request;
mod model_timezone;

pub use model_alarm::ModelAlarm;
pub use model_oblique_strategy::ModelObliqueStrategy;
pub use model_oblique_stratergy::ModelObliqueStratergy;
pub use model_request::Count;
pub use model_request::ModelRequest;
pub use model_request::RequestLog;
pub use model_request::req_in_window;
pub use model_request::spec_count_in_window;
pub use model_timezone::ModelTimezone;
