//! The field rules for inbound commands: hour and minute ranges, the test
//! message's length cap, and the zone-name check.

use vstd::prelude::*;
use vstd::string::StrSliceExecFns;
use vstd::string::StringExecFns;

use crate::clock;
use crate::clock::is_known_zone;
use crate::decimal::dec_rep;
use crate::decimal::u64_to_string;

verus! {

/// The wording of a range refusal: the value, then the range it missed.
pub open spec fn spec_range_error(parsed: u8, min: u8, max: u8) -> Seq<char> {
    dec_rep(parsed as nat) + ", not in range "@ + dec_rep(min as nat) + "..="@ + dec_rep(
        max as nat,
    )
}

/// Validates the fields of inbound commands before they reach the actor.
pub struct IncomingSerializer;

impl IncomingSerializer {
    /// Keep a value inside a closed range, refusing with the exact range
    /// in the report.
    fn in_range(parsed: u8, min: u8, max: u8) -> (r: Result<u8, String>)
        ensures
            r is Ok <==> min <= parsed <= max,
            r matches Ok(v) ==> v == parsed,
            r matches Err(e) ==> e@ == spec_range_error(parsed, min, max),
    {
        if min <= parsed && parsed <= max {
            Ok(parsed)
        } else {
            let report = u64_to_string(parsed as u64).concat(", not in range ").concat(
                u64_to_string(min as u64).as_str(),
            ).concat("..=").concat(u64_to_string(max as u64).as_str());
            Err(report)
        }
    }

    /// Allow only hours from 0 to 23.
    pub fn hour(value: u8) -> (r: Result<u8, String>)
        ensures
            r is Ok <==> value <= 23,
            r matches Ok(v) ==> v == value,
            r matches Err(e) ==> e@ == spec_range_error(value, 0, 23),
    {
        Self::in_range(value, 0, 23)
    }

    /// Allow only minutes from 0 to 59.
    pub fn minute(value: u8) -> (r: Result<u8, String>)
        ensures
            r is Ok <==> value <= 59,
            r matches Ok(v) ==> v == value,
            r matches Err(e) ==> e@ == spec_range_error(value, 0, 59),
    {
        Self::in_range(value, 0, 59)
    }

    /// A test push's text may hold at most 100 characters.
    pub fn message(value: String) -> (r: Result<String, String>)
        ensures
            r is Ok <==> value@.len() <= 100,
            r matches Ok(v) ==> v == value,
            r matches Err(e) ==> e@ == "message too long"@,
    {
        if value.as_str().unicode_len() <= 100 {
            Ok(value)
        } else {
            Err("message too long".to_owned())
        }
    }

    /// A zone change must name a zone the timezone database knows.
    pub fn timezone(value: String) -> (r: Result<String, String>)
        ensures
            r is Ok <==> is_known_zone(value@),
            r matches Ok(v) ==> v == value,
            r matches Err(e) ==> e@ == "unknown timezone"@,
    {
        if clock::zone_exists(value.as_str()) {
            Ok(value)
        } else {
            Err("unknown timezone".to_owned())
        }
    }
}

} // verus!
