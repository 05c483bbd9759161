//! The configured timezone and the local time it yields.

use vstd::prelude::*;

use crate::clock;
use crate::clock::TimeOfDay;

verus! {

/// The store's single timezone row: an IANA zone name.
#[derive(Debug)]
pub struct ModelTimezone {
    pub timezone_id: i64,
    pub zone_name: String,
}

impl Clone for ModelTimezone {
    fn clone(&self) -> (r: ModelTimezone)
        ensures
            r == *self,
    {
        ModelTimezone { timezone_id: self.timezone_id, zone_name: self.zone_name.clone() }
    }
}

impl PartialEq for ModelTimezone {
    fn eq(&self, other: &ModelTimezone) -> (r: bool) {
        self.timezone_id == other.timezone_id && self.zone_name == other.zone_name
    }
}

impl vstd::std_specs::cmp::PartialEqSpecImpl for ModelTimezone {
    open spec fn obeys_eq_spec() -> bool {
        true
    }

    open spec fn eq_spec(&self, other: &ModelTimezone) -> bool {
        self.timezone_id == other.timezone_id && self.zone_name@ == other.zone_name@
    }
}

impl Default for ModelTimezone {
    /// UTC, the zone used until the store holds one.
    fn default() -> (r: ModelTimezone)
        ensures
            r.timezone_id == 1,
            r.zone_name@ == "UTC"@,
    {
        ModelTimezone { timezone_id: 1, zone_name: "UTC".to_owned() }
    }
}

impl ModelTimezone {
    /// The current wall-clock time in this row's zone (UTC when the zone
    /// name is unknown). Follows the clock, so only validity is known.
    pub fn now_with_offset(&self) -> (t: TimeOfDay)
        ensures
            t.valid(),
    {
        clock::now_in_zone(self.zone_name.as_str())
    }

    /// The current local time of day in this row's zone.
    pub fn to_time(&self) -> (t: TimeOfDay)
        ensures
            t.valid(),
    {
        self.now_with_offset()
    }
}

} // verus!
