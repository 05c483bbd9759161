//! The commands the remote-control channel can deliver. Decoding the wire
//! text into these shapes happens outside; the fields here are already
//! held to the rules in `serializer`.

use vstd::prelude::*;

verus! {

/// What decoding an inbound text yielded: a command with the sender's
/// correlation token, or a carried error report.
#[derive(Debug)]
pub enum MessageValues {
    Valid(ParsedMessage, String),
    Invalid(ErrorData),
}

/// The inbound commands, mapped one to one onto actor operations.
#[derive(Debug)]
pub enum ParsedMessage {
    AlarmAdd(HourMinute),
    AlarmDelete,
    AlarmDismiss,
    AlarmUpdate(HourMinute),
    Restart,
    Status,
    TestRequest(TestRequest),
    TimeZone(TimeZone),
}

/// A one-off test push and its text.
#[derive(Debug)]
pub struct TestRequest {
    pub message: String,
}

/// A wake time for adding or updating the alarm.
#[derive(Debug, Clone, Copy, PartialEq, Eq, Structural)]
pub struct HourMinute {
    pub hour: u8,
    pub minute: u8,
}

/// A zone-change request.
#[derive(Debug)]
pub struct TimeZone {
    pub zone: String,
}

/// An error report arriving over the channel.
#[derive(Debug)]
pub enum ErrorData {
    Something(String),
}

} // verus!
