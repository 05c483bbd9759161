use alarms::app_error::AppError;
use alarms::clock;
use alarms::db::ModelAlarm;
use alarms::db::ModelTimezone;
use alarms::decimal::i64_to_string;
use alarms::decimal::u64_to_string;
use alarms::sysinfo::SysInfo;
use alarms::ws_messages::PiStatus;
use alarms::ws_messages::Response;
use alarms::ws_messages::StructuredResponse;

#[test]
fn decimal_rendering() {
    assert_eq!(u64_to_string(0), "0");
    assert_eq!(u64_to_string(7), "7");
    assert_eq!(u64_to_string(40), "40");
    assert_eq!(u64_to_string(12345), "12345");
    assert_eq!(u64_to_string(u64::MAX), "18446744073709551615");
    assert_eq!(i64_to_string(-5), "-5");
    assert_eq!(i64_to_string(60), "60");
    assert_eq!(i64_to_string(i64::MIN), "-9223372036854775808");
}

#[test]
fn error_messages_word_for_word() {
    assert_eq!(
        AppError::DbNameInvalid("LOCATION_SQLITE".to_owned()).message(),
        "'LOCATION_SQLITE' - sql file should end '.db'"
    );
    assert_eq!(
        AppError::MissingEnv("fish".to_owned()).message(),
        "missing env: 'fish'"
    );
    assert_eq!(AppError::Reqwest("boom".to_owned()).message(), "Reqwest Error");
    assert_eq!(
        AppError::Sqlx("no such table".to_owned()).message(),
        "Internal Database Error: no such table"
    );
    assert_eq!(
        AppError::TungsteniteConnect("refused".to_owned()).message(),
        "WS Connect: refused"
    );
    assert_eq!(
        AppError::Url("bad scheme".to_owned()).message(),
        "Url parsing error: bad scheme"
    );
    assert_eq!(AppError::WsStatus.message(), "Invalid WS Status Code");
    assert_eq!(
        AppError::TooManyRequests(60).message(),
        "Too many requests made in the past hour: 60"
    );
}

#[test]
fn sysinfo_parse_uptime_readings() {
    assert_eq!(SysInfo::parse_uptime("12345.67"), 12345);
    assert_eq!(SysInfo::parse_uptime("0.00"), 0);
    assert_eq!(SysInfo::parse_uptime(""), 0);
    assert_eq!(SysInfo::parse_uptime("123"), 0); // no dot
    assert_eq!(SysInfo::parse_uptime(".5"), 0); // nothing before the dot
    assert_eq!(SysInfo::parse_uptime("12a.5"), 0); // not a digit
    assert_eq!(SysInfo::parse_uptime("99999999999999999999999999.0"), 0); // too large
}

#[test]
fn sysinfo_and_status_snapshot() {
    let info = SysInfo::new(900, 30, "Europe/London".to_owned(), "1.2.3".to_owned());
    assert_eq!(info.uptime, 900);
    assert_eq!(info.uptime_app, 30);
    assert_eq!(info.time_zone, "Europe/London");
    assert_eq!(info.version, "1.2.3");

    let alarm = ModelAlarm::new(1, 6, 30, None).unwrap();
    let status = PiStatus::new(info, Some(alarm), 12);
    assert_eq!(status.uptime, 900);
    assert_eq!(status.uptime_app, 30);
    assert_eq!(status.uptime_ws, 12);
    assert_eq!(status.time_zone, "Europe/London");
    assert_eq!(status.version, "1.2.3");
    assert_eq!(status.alarm.as_ref().unwrap().hour, 6);

    let envelope = StructuredResponse::data(Response::Status(status), Some(true), None);
    assert!(envelope.data.is_some());
    assert!(envelope.error.is_none());
    assert_eq!(envelope.cache, Some(true));
    assert!(envelope.unique.is_none());
}

#[test]
fn model_alarm_validation() {
    // the store's range rules
    assert!(ModelAlarm::new(1, 25, 10, None).is_err());
    assert!(ModelAlarm::new(1, -1, 10, None).is_err());
    assert!(ModelAlarm::new(1, 10, 60, None).is_err());
    assert!(ModelAlarm::new(1, 10, -1, None).is_err());

    // an empty message is folded to none
    let a = ModelAlarm::new(1, 10, 10, Some(String::new())).unwrap();
    assert!(a.message.is_none());
    let a = ModelAlarm::new(1, 10, 10, Some("test".to_owned())).unwrap();
    assert_eq!(a.message.unwrap(), "test");
    let a = ModelAlarm::new(1, 10, 10, None).unwrap();
    assert!(a.message.is_none());
}

#[test]
fn model_timezone_default_and_clock() {
    let tz = ModelTimezone::default();
    assert_eq!(tz.timezone_id, 1);
    assert_eq!(tz.zone_name, "UTC");

    // whatever the zone, the clock reading stays inside one day
    for name in ["UTC", "Europe/London", "America/New_York", "not/a/zone"] {
        let tz = ModelTimezone { timezone_id: 1, zone_name: name.to_owned() };
        let t = tz.to_time();
        assert!(t.hour < 24);
        assert!(t.minute < 60);
        assert!(t.second < 60);
        let t = tz.now_with_offset();
        assert!(t.hour < 24);
    }
}

#[test]
fn zone_lookup_follows_the_database() {
    assert!(clock::zone_exists("Europe/London"));
    assert!(clock::zone_exists("Etc/UTC"));
    assert!(!clock::zone_exists("europe/london"));
    assert!(!clock::zone_exists(""));
    assert!(!clock::zone_exists("Atlantis/Lost_City"));
}
