//! The shapes that cross the remote-control channel: inbound commands with
//! their field validation, and outbound status.

pub mod incoming;
pub mod outgoing;
pub mod serializer;

pub use incoming::ErrorData;
pub use incoming::HourMinute;
pub use incoming::MessageValues;
pub use incoming::ParsedMessage;
pub use incoming::TestRequest;
pub use incoming::TimeZone;
pub use outgoing::PiStatus;
pub use outgoing::Response;
pub use outgoing::StructuredResponse;
pub use serializer::IncomingSerializer;
