//! Validation of the five connection parameters and port parsing.

use db_config::config::{
    build_config, parse_port, ConfigError, ConfigVar, IDLE_TIMEOUT_SECS, MAX_CONNECTIONS,
    MAX_LIFETIME_SECS, MIN_CONNECTIONS,
};

fn all_set() -> (
    Option<String>,
    Option<String>,
    Option<String>,
    Option<String>,
    Option<String>,
) {
    (
        Some("alice".to_string()),
        Some("hunter2".to_string()),
        Some("db.example.com".to_string()),
        Some("5432".to_string()),
        Some("appdb".to_string()),
    )
}

#[test]
fn all_values_present_builds_config() {
    let (user, pass, host, port, name) = all_set();
    let cfg = build_config(user, pass, host, port, name).unwrap();
    assert_eq!(cfg.user, "alice");
    assert_eq!(cfg.pass, "hunter2");
    assert_eq!(cfg.host, "db.example.com");
    assert_eq!(cfg.port, 5432);
    assert_eq!(cfg.name, "appdb");
}

#[test]
fn missing_user_is_reported() {
    let (_, pass, host, port, name) = all_set();
    let r = build_config(None, pass, host, port, name);
    assert_eq!(r.unwrap_err(), ConfigError::Missing(ConfigVar::User));
}

#[test]
fn missing_pass_is_reported() {
    let (user, _, host, port, name) = all_set();
    let r = build_config(user, None, host, port, name);
    assert_eq!(r.unwrap_err(), ConfigError::Missing(ConfigVar::Pass));
}

#[test]
fn missing_host_is_reported() {
    let (user, pass, _, port, name) = all_set();
    let r = build_config(user, pass, None, port, name);
    assert_eq!(r.unwrap_err(), ConfigError::Missing(ConfigVar::Host));
}

#[test]
fn missing_port_is_reported() {
    let (user, pass, host, _, name) = all_set();
    let r = build_config(user, pass, host, None, name);
    assert_eq!(r.unwrap_err(), ConfigError::Missing(ConfigVar::Port));
}

#[test]
fn missing_name_is_reported() {
    let (user, pass, host, port, _) = all_set();
    let r = build_config(user, pass, host, port, None);
    assert_eq!(r.unwrap_err(), ConfigError::Missing(ConfigVar::Name));
}

#[test]
fn missing_value_wins_over_bad_port() {
    // the absent value is reported even though the port is also bad
    let (user, _, host, _, name) = all_set();
    let r = build_config(user, None, host, Some("abc".to_string()), name);
    assert_eq!(r.unwrap_err(), ConfigError::Missing(ConfigVar::Pass));
}

#[test]
fn non_numeric_port_is_a_port_error() {
    let (user, pass, host, _, name) = all_set();
    let r = build_config(user, pass, host, Some("abc".to_string()), name);
    assert_eq!(r.unwrap_err(), ConfigError::InvalidPort);
}

#[test]
fn out_of_range_port_is_a_port_error() {
    let (user, pass, host, _, name) = all_set();
    let r = build_config(user, pass, host, Some("65536".to_string()), name);
    assert_eq!(r.unwrap_err(), ConfigError::InvalidPort);
}

#[test]
fn parse_port_accepts_bounds() {
    assert_eq!(parse_port("0"), Some(0));
    assert_eq!(parse_port("1"), Some(1));
    assert_eq!(parse_port("5432"), Some(5432));
    assert_eq!(parse_port("65535"), Some(65535));
}

#[test]
fn parse_port_accepts_leading_zeros_and_plus() {
    assert_eq!(parse_port("007"), Some(7));
    assert_eq!(parse_port("+80"), Some(80));
    assert_eq!(parse_port("+00065535"), Some(65535));
}

#[test]
fn parse_port_rejects_out_of_range() {
    assert_eq!(parse_port("65536"), None);
    assert_eq!(parse_port("99999999999999999999"), None);
}

#[test]
fn parse_port_rejects_non_numeric() {
    assert_eq!(parse_port(""), None);
    assert_eq!(parse_port("abc"), None);
    assert_eq!(parse_port("54x2"), None);
    assert_eq!(parse_port("-1"), None);
    assert_eq!(parse_port("+"), None);
    assert_eq!(parse_port("++1"), None);
    assert_eq!(parse_port("12 "), None);
    assert_eq!(parse_port(" 12"), None);
    assert_eq!(parse_port("१२"), None);
    assert_eq!(parse_port("8ø"), None);
}

#[test]
fn pool_sizing_constants() {
    assert_eq!(MAX_CONNECTIONS, 16);
    assert_eq!(MIN_CONNECTIONS, 4);
    assert_eq!(MAX_LIFETIME_SECS, 20_000);
    assert_eq!(IDLE_TIMEOUT_SECS, 5_000);
}
