use std::path::PathBuf;

use env_logger::cmd_args::{parse, ConfigError, LogLevel, Options, MAX_PORT, MIN_PORT};
use env_logger::text::{decimal_string, join};

fn options_with_port(port: usize) -> Options {
    Options::new(
        LogLevel::Info,
        None,
        String::from("0.0.0.0"),
        port,
        PathBuf::from("database.db"),
    )
}

#[test]
fn port_bounds_are_inclusive() {
    assert_eq!(MIN_PORT, 1024);
    assert_eq!(MAX_PORT, 65535);
    assert_eq!(options_with_port(1024).validate(), Ok(()));
    assert_eq!(options_with_port(65535).validate(), Ok(()));
    assert_eq!(options_with_port(2342).validate(), Ok(()));
}

#[test]
fn port_below_range_is_refused() {
    assert_eq!(options_with_port(1023).validate(), Err(ConfigError::PortOutOfRange));
    assert_eq!(options_with_port(0).validate(), Err(ConfigError::PortOutOfRange));
    assert_eq!(options_with_port(80).validate(), Err(ConfigError::PortOutOfRange));
}

#[test]
fn port_above_range_is_refused() {
    assert_eq!(options_with_port(65536).validate(), Err(ConfigError::PortOutOfRange));
    assert_eq!(options_with_port(usize::MAX).validate(), Err(ConfigError::PortOutOfRange));
}

#[test]
fn parse_keeps_the_values_it_was_given() {
    let parsed = parse(
        LogLevel::Debug,
        Some(PathBuf::from("/var/log/sensors.log")),
        String::from("192.168.1.10"),
        5000,
        PathBuf::from("/data/readings.db"),
    );
    let opts = match parsed {
        Ok(opts) => opts,
        Err(error) => panic!("refused: {:?}", error),
    };
    assert_eq!(opts.log_level(), LogLevel::Debug);
    assert_eq!(opts.log_output(), Some(PathBuf::from("/var/log/sensors.log")));
    assert_eq!(opts.endpoint(), "192.168.1.10:5000");
    assert_eq!(opts.db_file(), PathBuf::from("/data/readings.db"));
    assert_eq!(opts.validate(), Ok(()));
}

#[test]
fn parse_refuses_a_port_out_of_range() {
    let low = parse(LogLevel::Info, None, String::from("0.0.0.0"), 1023, PathBuf::from("a.db"));
    assert_eq!(low.err(), Some(ConfigError::PortOutOfRange));
    let high = parse(LogLevel::Info, None, String::from("0.0.0.0"), 65536, PathBuf::from("a.db"));
    assert_eq!(high.err(), Some(ConfigError::PortOutOfRange));
    let edge = parse(LogLevel::Info, None, String::from("0.0.0.0"), 65535, PathBuf::from("a.db"));
    assert!(edge.is_ok());
}

#[test]
fn endpoint_joins_host_and_port() {
    assert_eq!(options_with_port(2342).endpoint(), "0.0.0.0:2342");
    assert_eq!(options_with_port(1024).endpoint(), "0.0.0.0:1024");
    assert_eq!(options_with_port(65535).endpoint(), "0.0.0.0:65535");
    assert_eq!(options_with_port(0).endpoint(), "0.0.0.0:0");
    let named = Options::new(LogLevel::Off, None, String::from("localhost"), 10000, PathBuf::new());
    assert_eq!(named.endpoint(), "localhost:10000");
}

#[test]
fn getters_return_what_was_set() {
    let opts = options_with_port(2342);
    assert_eq!(opts.log_level(), LogLevel::Info);
    assert_eq!(opts.log_output(), None);
    assert_eq!(opts.db_file(), PathBuf::from("database.db"));
}

#[test]
fn level_names() {
    assert_eq!(LogLevel::Off.as_ref(), "none");
    assert_eq!(LogLevel::Error.as_ref(), "error");
    assert_eq!(LogLevel::Warn.as_ref(), "warn");
    assert_eq!(LogLevel::Info.as_ref(), "info");
    assert_eq!(LogLevel::Debug.as_ref(), "debug");
    assert_eq!(LogLevel::Trace.as_ref(), "trace");
}

#[test]
fn config_error_message() {
    assert_eq!(ConfigError::PortOutOfRange.message(), "listening port is out of range");
}

#[test]
fn decimal_numerals() {
    assert_eq!(decimal_string(0), "0");
    assert_eq!(decimal_string(7), "7");
    assert_eq!(decimal_string(9), "9");
    assert_eq!(decimal_string(10), "10");
    assert_eq!(decimal_string(99), "99");
    assert_eq!(decimal_string(100), "100");
    assert_eq!(decimal_string(1234567890), "1234567890");
    assert_eq!(decimal_string(usize::MAX), format!("{}", usize::MAX));
}

#[test]
fn joined_lists() {
    let none: Vec<String> = Vec::new();
    assert_eq!(join(&none, ","), "");
    assert_eq!(join(&vec![String::from("a")], ","), "a");
    assert_eq!(join(&vec![String::from("a"), String::from("b")], ","), "a,b");
    assert_eq!(
        join(&vec![String::from("a"), String::new(), String::from("c")], ", "),
        "a, , c"
    );
}
