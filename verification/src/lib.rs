//! Core of an always-on wake-up alarm controller.
//!
//! The crate holds the verified logic of the controller: the single
//! configured alarm, the timezone-aware ticker that decides when the alarm
//! fires, the dispatcher that pushes notifications under an hourly rate
//! limit, and the validator that forbids edits close to the fire time.
//! All storage, network and clock access stays outside; the functions here
//! take plain values and return plain values, with contracts stating what
//! they compute.

pub mod alarm_schedule;
pub mod app_env;
pub mod app_error;
pub mod clock;
pub mod db;
pub mod decimal;
pub mod request;
pub mod sysinfo;
pub mod ws;
pub mod ws_messages;
