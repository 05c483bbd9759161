//! What the remote-control handler decides: whether an alarm may be edited
//! now, and which operation an inbound command asks for.

use vstd::prelude::*;

use crate::clock;
use crate::clock::TimeOfDay;
use crate::clock::is_known_zone;
use crate::db::ModelAlarm;
use crate::ws_messages::ParsedMessage;

verus! {

pub const ONE_HOUR_AS_SEC: i64 = 3600;

/// The blackout rule: editing is forbidden for the five hours leading up to
/// the alarm's own fire time, the fire minute itself included, computed on a
/// 24-hour ring. `cur` and `alarm` are seconds since midnight. An alarm in
/// the first five hours of the day pulls the tail of the previous evening
/// into the window; an alarm in the last hour of the day pushes the boundary
/// past midnight into the next morning.
pub open spec fn edit_forbidden(cur: int, alarm: int) -> bool {
    ||| (alarm < 5 * 3600 && cur >= 24 * 3600 + alarm - 5 * 3600)
    ||| (alarm > 23 * 3600 && cur <= alarm + 3600 - 24 * 3600)
    ||| (alarm - 5 * 3600 <= cur <= alarm)
}

/// Seconds since midnight of a time of day, to the minute: the second is
/// ignored, as the alarm itself is set to a minute.
pub open spec fn spec_minute_of_day_sec(t: TimeOfDay) -> int {
    t.hour * 3600 + t.minute * 60
}

/// Decide whether the alarm set for `alarm_hour:alarm_minute` may be edited
/// or deleted at `current_time`: allowed exactly when the current minute
/// lies outside the five-hour blackout window ending at the alarm time.
pub fn valid_change(current_time: TimeOfDay, alarm_hour: u8, alarm_minute: u8) -> (r: Result<
    (),
    (),
>)
    requires
        current_time.valid(),
        alarm_hour < 24,
        alarm_minute < 60,
    ensures
        r is Ok <==> !edit_forbidden(
            spec_minute_of_day_sec(current_time),
            alarm_hour * 3600 + alarm_minute * 60,
        ),
{
    let current_as_sec: i64 = (current_time.hour as i64) * 60 * 60 + (current_time.minute as i64)
        * 60;
    let alarm_as_sec: i64 = (alarm_hour as i64) * 60 * 60 + (alarm_minute as i64) * 60;

    if alarm_as_sec < ONE_HOUR_AS_SEC * 5 {
        let limit: i64 = ONE_HOUR_AS_SEC * 24 + (alarm_as_sec - ONE_HOUR_AS_SEC * 5);
        if current_as_sec >= limit {
            return Err(());
        }
    }
    if alarm_as_sec > ONE_HOUR_AS_SEC * 23 {
        let limit: i64 = (alarm_as_sec + ONE_HOUR_AS_SEC) - ONE_HOUR_AS_SEC * 24;
        if current_as_sec <= limit {
            return Err(());
        }
    }

    let lower_range: i64 = alarm_as_sec - ONE_HOUR_AS_SEC * 5;
    if lower_range <= current_as_sec && current_as_sec <= alarm_as_sec {
        return Err(());
    }
    Ok(())
}

/// What the handler does with one inbound command.
#[derive(Debug, PartialEq)]
pub enum WsAction {
    /// Store a new alarm, then reset and report status.
    AddAlarm(u8, u8),
    /// Delete the alarm, then reset and report status.
    DeleteAlarm,
    /// Update the alarm to this time, then reset and report status.
    UpdateAlarm(u8, u8),
    /// Refuse the edit: the current time is too close to the alarm.
    RejectEdit,
    /// Stop the running dispatch sequence.
    Dismiss,
    /// Quit, to be restarted by the supervisor.
    Restart,
    /// Send a one-off test push with this text.
    SendTest(String),
    /// Store this zone, then reset and report status.
    ChangeZone(String),
    /// Refuse the zone change: the name is unknown.
    RejectZone,
    /// Report the status snapshot.
    SendStatus,
    /// Nothing to do (deleting or updating an alarm that is not there).
    Ignore,
}

/// Decide what one inbound command amounts to, given the configured alarm
/// and the current local time. Deleting and updating go through the edit
/// window; adding does not, as nothing imminent can fire yet; a zone
/// change must name a known zone.
pub fn plan_message(msg: ParsedMessage, alarm: Option<&ModelAlarm>, current_time: TimeOfDay) -> (r:
    WsAction)
    requires
        current_time.valid(),
        alarm matches Some(a) ==> a.valid(),
    ensures
        match msg {
            ParsedMessage::AlarmAdd(hm) => r == WsAction::AddAlarm(hm.hour, hm.minute),
            ParsedMessage::AlarmDelete => match alarm {
                None => r == WsAction::Ignore,
                Some(a) => if edit_forbidden(
                    spec_minute_of_day_sec(current_time),
                    a.hour * 3600 + a.minute * 60,
                ) {
                    r == WsAction::RejectEdit
                } else {
                    r == WsAction::DeleteAlarm
                },
            },
            ParsedMessage::AlarmDismiss => r == WsAction::Dismiss,
            ParsedMessage::AlarmUpdate(hm) => match alarm {
                None => r == WsAction::Ignore,
                Some(a) => if edit_forbidden(
                    spec_minute_of_day_sec(current_time),
                    a.hour * 3600 + a.minute * 60,
                ) {
                    r == WsAction::RejectEdit
                } else {
                    r == WsAction::UpdateAlarm(hm.hour, hm.minute)
                },
            },
            ParsedMessage::Restart => r == WsAction::Restart,
            ParsedMessage::Status => r == WsAction::SendStatus,
            ParsedMessage::TestRequest(t) => r == WsAction::SendTest(t.message),
            ParsedMessage::TimeZone(z) => if is_known_zone(z.zone@) {
                r == WsAction::ChangeZone(z.zone)
            } else {
                r == WsAction::RejectZone
            },
        },
{
    match msg {
        ParsedMessage::AlarmAdd(hm) => WsAction::AddAlarm(hm.hour, hm.minute),
        ParsedMessage::AlarmDelete => match alarm {
            None => WsAction::Ignore,
            Some(a) => {
                if valid_change(current_time, a.hour as u8, a.minute as u8).is_ok() {
                    WsAction::DeleteAlarm
                } else {
                    WsAction::RejectEdit
                }
            },
        },
        ParsedMessage::AlarmDismiss => WsAction::Dismiss,
        ParsedMessage::AlarmUpdate(hm) => match alarm {
            None => WsAction::Ignore,
            Some(a) => {
                if valid_change(current_time, a.hour as u8, a.minute as u8).is_ok() {
                    WsAction::UpdateAlarm(hm.hour, hm.minute)
                } else {
                    WsAction::RejectEdit
                }
            },
        },
        ParsedMessage::Restart => WsAction::Restart,
        ParsedMessage::Status => WsAction::SendStatus,
        ParsedMessage::TestRequest(t) => WsAction::SendTest(t.message),
        ParsedMessage::TimeZone(z) => {
            if clock::zone_exists(z.zone.as_str()) {
                WsAction::ChangeZone(z.zone)
            } else {
                WsAction::RejectZone
            }
        },
    }
}

} // verus!
