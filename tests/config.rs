use session_auth::text::decimal;
use session_auth::{format_address, Environment};

#[test]
fn environments_have_names() {
    assert_eq!(Environment::Local.as_str(), "local");
    assert_eq!(Environment::Production.as_str(), "production");
}

#[test]
fn environments_parse_in_any_case() {
    assert_eq!(Environment::try_from("local".to_string()), Ok(Environment::Local));
    assert_eq!(Environment::try_from("PRODUCTION".to_string()), Ok(Environment::Production));
    assert_eq!(Environment::try_from("Local".to_string()), Ok(Environment::Local));
}

#[test]
fn unknown_environments_are_refused() {
    assert_eq!(
        Environment::try_from("Staging".to_string()),
        Err("staging is not a supported environment. Use either `local` or `production`.".to_string())
    );
}

#[test]
fn addresses_join_host_and_port() {
    assert_eq!(format_address("127.0.0.1", 8080), "127.0.0.1:8080");
    assert_eq!(format_address("localhost", 0), "localhost:0");
    assert_eq!(format_address("", 65535), ":65535");
}

#[test]
fn numbers_are_written_in_decimal() {
    assert_eq!(decimal(0), "0");
    assert_eq!(decimal(7300), "7300");
    assert_eq!(decimal(-5), "-5");
    assert_eq!(decimal(i64::MAX), i64::MAX.to_string());
    assert_eq!(decimal(i64::MIN), i64::MIN.to_string());
}
