use authgate::digits::parse_u64;
use authgate::settings::{Settings, SettingsError};

#[test]
fn missing_values_take_the_defaults() {
    let s = Settings::from_env_values("SECRET-REDACTED".to_owned(), None, None).unwrap();
    assert_eq!(s.num_workers, 4);
    assert_eq!(s.port, 8080);
    assert_eq!(s.secret_key, "SECRET-REDACTED");
}

#[test]
fn present_values_are_taken_exactly() {
    let s = Settings::from_env_values("k".to_owned(), Some("16"), Some("3000")).unwrap();
    assert_eq!(s.num_workers, 16);
    assert_eq!(s.port, 3000);
}

#[test]
fn bad_workers_value_is_rejected() {
    let e = Settings::from_env_values("k".to_owned(), Some("abc"), None).unwrap_err();
    assert_eq!(e, SettingsError::BadWorkers);
    let e = Settings::from_env_values("k".to_owned(), Some(""), None).unwrap_err();
    assert_eq!(e, SettingsError::BadWorkers);
    let e = Settings::from_env_values("k".to_owned(), Some("-1"), None).unwrap_err();
    assert_eq!(e, SettingsError::BadWorkers);
}

#[test]
fn out_of_range_port_is_rejected() {
    let e = Settings::from_env_values("k".to_owned(), None, Some("70000")).unwrap_err();
    assert_eq!(e, SettingsError::BadPort);
    let s = Settings::from_env_values("k".to_owned(), None, Some("65535")).unwrap();
    assert_eq!(s.port, 65535);
}

#[test]
fn decimal_parser_is_exact_at_the_edges() {
    assert_eq!(parse_u64("0"), Some(0));
    assert_eq!(parse_u64("007"), Some(7));
    assert_eq!(parse_u64("18446744073709551615"), Some(u64::MAX));
    assert_eq!(parse_u64("18446744073709551616"), None);
    assert_eq!(parse_u64("99999999999999999999999"), None);
    assert_eq!(parse_u64(""), None);
    assert_eq!(parse_u64("12a"), None);
    assert_eq!(parse_u64(" 12"), None);
}
