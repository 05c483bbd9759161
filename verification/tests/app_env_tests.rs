use alarms::app_env::AppEnv;
use alarms::app_env::EnvMap;
use alarms::app_env::LogLevel;
use alarms::app_error::AppError;

fn map_of(pairs: &[(&str, &str)]) -> EnvMap {
    let mut map = EnvMap::new();
    for (k, v) in pairs {
        map.insert((*k).to_owned(), (*v).to_owned());
    }
    map
}

#[test]
fn env_missing_env() {
    let map = map_of(&[("not_fish", "not_fish")]);

    let result = AppEnv::parse_string("fish", &map);

    assert!(result.is_err());
    assert_eq!(result.unwrap_err().message(), "missing env: 'fish'");
}

#[test]
fn env_parse_string_valid() {
    let map = map_of(&[("LOCATION_SQLITE", "/alarms.db")]);

    let result = AppEnv::parse_string("LOCATION_SQLITE", &map).unwrap();

    assert_eq!(result, "/alarms.db");
}

#[test]
fn env_parse_boolean_ok() {
    let map = map_of(&[
        ("valid_true", "true"),
        ("valid_false", "false"),
        ("invalid_but_false", "as"),
    ]);

    let result01 = AppEnv::parse_boolean("valid_true", &map);
    let result02 = AppEnv::parse_boolean("valid_false", &map);
    let result03 = AppEnv::parse_boolean("invalid_but_false", &map);
    let result04 = AppEnv::parse_boolean("missing", &map);

    assert!(result01);
    assert!(!result02);
    assert!(!result03);
    assert!(!result04);
}

#[test]
fn env_parse_db_location_ok() {
    let map = map_of(&[("LOCATION_SQLITE", "file.db")]);

    let result = AppEnv::parse_db_name("LOCATION_SQLITE", &map);

    assert!(result.is_ok());
    assert_eq!(result.unwrap(), "file.db");

    let map = map_of(&[("LOCATION_SQLITE", "some/nested/location/file.db")]);

    let result = AppEnv::parse_db_name("LOCATION_SQLITE", &map);

    assert!(result.is_ok());
    assert_eq!(result.unwrap(), "some/nested/location/file.db");
}

#[test]
fn env_parse_db_location_format_err() {
    let map = map_of(&[("LOCATION_SQLITE", "file.sql")]);

    let result = AppEnv::parse_db_name("LOCATION_SQLITE", &map);

    assert!(result.is_err());
    match result.unwrap_err() {
        AppError::DbNameInvalid(value) => assert_eq!(value, "LOCATION_SQLITE"),
        _ => unreachable!(),
    }
}

#[test]
fn env_parse_db_location_missing_err() {
    let map = EnvMap::new();

    let result = AppEnv::parse_db_name("LOCATION_SQLITE", &map);

    assert!(result.is_err());
    match result.unwrap_err() {
        AppError::MissingEnv(value) => assert_eq!(value, "LOCATION_SQLITE"),
        _ => unreachable!(),
    }
}

#[test]
fn env_parse_db_location_edge_cases() {
    // the extension check ignores ASCII case
    let map = map_of(&[("LOCATION_SQLITE", "file.DB")]);
    assert!(AppEnv::parse_db_name("LOCATION_SQLITE", &map).is_ok());

    // a bare extension has no stem and is refused
    let map = map_of(&[("LOCATION_SQLITE", ".db")]);
    assert!(AppEnv::parse_db_name("LOCATION_SQLITE", &map).is_err());

    // ...also when it hides in a directory
    let map = map_of(&[("LOCATION_SQLITE", "dir/.db")]);
    assert!(AppEnv::parse_db_name("LOCATION_SQLITE", &map).is_err());

    // a doubled dot still yields the extension
    let map = map_of(&[("LOCATION_SQLITE", "a..db")]);
    assert!(AppEnv::parse_db_name("LOCATION_SQLITE", &map).is_ok());
}

#[test]
fn env_parse_log_valid() {
    let map = map_of(&[("RANDOM_STRING", "123")]);

    let result = AppEnv::parse_log(&map);

    assert_eq!(result, LogLevel::Info);

    let map = map_of(&[("LOG_DEBUG", "false")]);

    let result = AppEnv::parse_log(&map);

    assert_eq!(result, LogLevel::Info);

    let map = map_of(&[("LOG_TRACE", "false")]);

    let result = AppEnv::parse_log(&map);

    assert_eq!(result, LogLevel::Info);

    let map = map_of(&[("LOG_DEBUG", "false"), ("LOG_TRACE", "false")]);

    let result = AppEnv::parse_log(&map);

    assert_eq!(result, LogLevel::Info);

    let map = map_of(&[("LOG_DEBUG", "true"), ("LOG_TRACE", "false")]);

    let result = AppEnv::parse_log(&map);

    assert_eq!(result, LogLevel::Debug);

    let map = map_of(&[("LOG_DEBUG", "true"), ("LOG_TRACE", "true")]);

    let result = AppEnv::parse_log(&map);

    assert_eq!(result, LogLevel::Trace);

    let map = map_of(&[("LOG_DEBUG", "false"), ("LOG_TRACE", "true")]);

    let result = AppEnv::parse_log(&map);

    assert_eq!(result, LogLevel::Trace);
}

#[test]
fn env_parse_timezone_ok() {
    let map = map_of(&[("TZ", "America/New_York")]);

    let result = AppEnv::parse_timezone(&map);

    assert_eq!(result.0, "America/New_York");

    let map = map_of(&[("TZ", "Europe/Berlin")]);

    let result = AppEnv::parse_timezone(&map);

    assert_eq!(result.0, "Europe/Berlin");

    let map = EnvMap::new();

    let result = AppEnv::parse_timezone(&map);

    assert_eq!(result.0, "Etc/UTC");
}

#[test]
fn env_parse_timezone_err() {
    let map = map_of(&[("TIMEZONE", "america/New_York")]);

    let result = AppEnv::parse_timezone(&map);

    assert_eq!(result.0, "Etc/UTC");

    // No timezone present

    let map = EnvMap::new();
    let result = AppEnv::parse_timezone(&map);

    assert_eq!(result.0, "Etc/UTC");
}

#[test]
fn env_generate_ok_and_field_order_errors() {
    let full = [
        ("LOCATION_SQLITE", "alarms.db"),
        ("TOKEN_APP", "ta"),
        ("TOKEN_USER", "tu"),
        ("WS_ADDRESS", "wa"),
        ("WS_APIKEY", "wk"),
        ("WS_PASSWORD", "wp"),
        ("WS_TOKEN_ADDRESS", "wt"),
        ("TZ", "Europe/London"),
        ("LOG_DEBUG", "true"),
    ];
    let map = map_of(&full);
    let env = AppEnv::generate(&map, 77).unwrap();
    assert_eq!(env.location_sqlite, "alarms.db");
    assert_eq!(env.token_app, "ta");
    assert_eq!(env.token_user, "tu");
    assert_eq!(env.ws_address, "wa");
    assert_eq!(env.ws_apikey, "wk");
    assert_eq!(env.ws_password, "wp");
    assert_eq!(env.ws_token_address, "wt");
    assert_eq!(env.timezone.0, "Europe/London");
    assert_eq!(env.log_level, LogLevel::Debug);
    assert_eq!(env.start_time, 77);

    // dropping an entry fails with exactly that entry's name
    for missing in ["LOCATION_SQLITE", "TOKEN_APP", "TOKEN_USER", "WS_ADDRESS"] {
        let reduced: Vec<(&str, &str)> = full
            .iter()
            .copied()
            .filter(|(k, _)| *k != missing)
            .collect();
        let map = map_of(&reduced);
        match AppEnv::generate(&map, 0).unwrap_err() {
            AppError::MissingEnv(k) => assert_eq!(k, missing),
            e => unreachable!("unexpected error {:?}", e),
        }
    }
}
