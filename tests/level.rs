use free_log_client::{level_int, Level, LogLevel};
use std::cmp::Ordering;

#[test]
fn level_int_follows_severity_order() {
    assert_eq!(level_int(Level::Trace), 0);
    assert_eq!(level_int(Level::Debug), 1);
    assert_eq!(level_int(Level::Info), 2);
    assert_eq!(level_int(Level::Warn), 3);
    assert_eq!(level_int(Level::Error), 4);
}

#[test]
fn at_least_compares_by_severity() {
    assert!(Level::Warn.at_least(Level::Warn));
    assert!(Level::Error.at_least(Level::Warn));
    assert!(!Level::Trace.at_least(Level::Warn));
    assert!(Level::Trace.at_least(Level::Trace));
}

#[test]
fn compare_orders_levels() {
    assert_eq!(Level::Trace.compare(Level::Debug), Ordering::Less);
    assert_eq!(Level::Info.compare(Level::Info), Ordering::Equal);
    assert_eq!(Level::Error.compare(Level::Warn), Ordering::Greater);
}

#[test]
fn default_level_is_trace() {
    assert_eq!(Level::default(), Level::Trace);
}

#[test]
fn level_names_are_screaming_snake_case() {
    assert_eq!(Level::Info.as_str(), "INFO");
    assert_eq!(LogLevel::Warn.as_str(), "WARN");
    assert_eq!(LogLevel::from_name("ERROR"), Some(LogLevel::Error));
    assert_eq!(LogLevel::from_name("error"), None);
    assert_eq!(Level::from_name("DEBUG"), Some(Level::Debug));
    assert_eq!(Level::from_name(""), None);
}

#[test]
fn wire_and_client_levels_convert() {
    assert_eq!(Level::from(LogLevel::Trace), Level::Trace);
    assert_eq!(LogLevel::from(Level::Error), LogLevel::Error);
}
