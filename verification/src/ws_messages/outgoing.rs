//! The status shapes the controller reports back over the channel.

use vstd::prelude::*;

use crate::db::ModelAlarm;
use crate::sysinfo::SysInfo;

verus! {

/// The controller's read-only status snapshot: the configured alarm, the
/// zone, and the uptimes of host, process and connection.
#[derive(Debug)]
pub struct PiStatus {
    pub alarm: Option<ModelAlarm>,
    pub time_zone: String,
    pub uptime_app: u64,
    pub uptime_ws: u64,
    pub uptime: usize,
    pub version: String,
}

impl PiStatus {
    /// Combine the host information, the configured alarm and the
    /// connection's uptime into one snapshot.
    pub fn new(sysinfo: SysInfo, alarm: Option<ModelAlarm>, uptime_ws: u64) -> (r: PiStatus)
        ensures
            r.alarm == alarm,
            r.time_zone == sysinfo.time_zone,
            r.uptime_app == sysinfo.uptime_app,
            r.uptime == sysinfo.uptime,
            r.uptime_ws == uptime_ws,
            r.version == sysinfo.version,
    {
        PiStatus {
            alarm,
            time_zone: sysinfo.time_zone,
            uptime_app: sysinfo.uptime_app,
            uptime: sysinfo.uptime,
            uptime_ws,
            version: sysinfo.version,
        }
    }
}

/// One outbound report: a status snapshot or an error text.
#[derive(Debug)]
pub enum Response {
    Status(PiStatus),
    LedStatus { status: bool },
    Error(String),
}

/// The envelope a report travels in, with its cache hint and the
/// correlation token of the command it answers.
#[derive(Debug)]
pub struct StructuredResponse {
    pub data: Option<Response>,
    pub error: Option<Response>,
    pub cache: Option<bool>,
    pub unique: Option<String>,
}

impl StructuredResponse {
    /// Wrap a report for sending.
    pub fn data(data: Response, cache: Option<bool>, unique: Option<String>) -> (r:
        StructuredResponse)
        ensures
            r.data == Some(data),
            r.error is None,
            r.cache == cache,
            r.unique == unique,
    {
        StructuredResponse { data: Some(data), error: None, cache, unique }
    }
}

} // verus!
