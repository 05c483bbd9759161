//! Wall-clock time and IANA timezone lookups.
//!
//! The controller only ever reads the clock as a time of day in a named
//! zone, or as unix seconds. Both reads go through the trusted wrappers
//! here; everything downstream works on the plain values they return.

use vstd::prelude::*;

verus! {

/// A wall-clock time of day.
#[derive(Debug, Clone, Copy, PartialEq, Eq, Structural)]
pub struct TimeOfDay {
    pub hour: u8,
    pub minute: u8,
    pub second: u8,
}

impl TimeOfDay {
    /// The fields stay inside one day.
    pub open spec fn valid(self) -> bool {
        self.hour < 24 && self.minute < 60 && self.second < 60
    }

    /// Seconds since midnight.
    pub open spec fn spec_seconds_of_day(self) -> int {
        self.hour * 3600 + self.minute * 60 + self.second
    }

    pub fn new(hour: u8, minute: u8, second: u8) -> (t: TimeOfDay)
        requires
            hour < 24,
            minute < 60,
            second < 60,
        ensures
            t == (TimeOfDay { hour, minute, second }),
    {
        TimeOfDay { hour, minute, second }
    }
}

/// Whether a name denotes a zone of the bundled IANA timezone database.
/// Names the result of `time_tz::timezones::get_by_name`, which looks the
/// name up in a table compiled into the crate, so it depends on the name
/// alone.
pub uninterp spec fn is_known_zone(name: Seq<char>) -> bool;

/// Relies on `time_tz::timezones::get_by_name`: a lookup of the name in the
/// compiled-in IANA timezone table.
#[verifier::external_body]
pub fn zone_exists(name: &str) -> (r: bool)
    ensures
        r == is_known_zone(name@),
{
    time_tz::timezones::get_by_name(name).is_some()
}

/// Relies on `time::OffsetDateTime::now_utc` for the current instant and on
/// `time_tz::OffsetDateTimeExt::to_timezone` with the zone found by
/// `time_tz::timezones::get_by_name` for the local offset; an unknown name
/// falls back to UTC. `time::Time` documents its fields as `0..24`, `0..60`
/// and `0..60`. The result follows the clock, so nothing more is promised.
#[verifier::external_body]
pub fn now_in_zone(name: &str) -> (t: TimeOfDay)
    ensures
        t.valid(),
{
    let now = time::OffsetDateTime::now_utc();
    let local = match time_tz::timezones::get_by_name(name) {
        Some(tz) => time_tz::OffsetDateTimeExt::to_timezone(&now, tz),
        None => now,
    };
    let time = local.time();
    TimeOfDay { hour: time.hour(), minute: time.minute(), second: time.second() }
}

/// Relies on `std::time::SystemTime::now`: seconds since the unix epoch,
/// zero if the clock reads before the epoch. The result follows the clock,
/// so nothing is promised of it.
#[verifier::external_body]
pub fn now_unix_secs() -> u64 {
    std::time::SystemTime::now()
        .duration_since(std::time::SystemTime::UNIX_EPOCH)
        .unwrap_or_default()
        .as_secs()
}

} // verus!
