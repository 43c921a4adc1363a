use free_log_client::wire::{encode_record, write_decimal};
use free_log_client::{EventData, Level, LogComponent, LogEntryRequest, LogLevel, Properties};

fn record(level: LogLevel, values: Vec<LogComponent>, ts: usize) -> LogEntryRequest {
    LogEntryRequest {
        level,
        values,
        ts,
        target: None,
        module: None,
        location: None,
        properties: None,
    }
}

#[test]
fn decimal_numerals() {
    let mut s = String::new();
    write_decimal(0, &mut s);
    assert_eq!(s, "0");
    let mut s = String::from("x");
    write_decimal(u64::MAX, &mut s);
    assert_eq!(s, "x18446744073709551615");
}

#[test]
fn encodes_minimal_record() {
    let r = record(LogLevel::Warn, vec![LogComponent::String("hi".to_string())], 5);
    assert_eq!(encode_record(&r), r#"{"level":"WARN","values":["hi"],"ts":5}"#);
}

#[test]
fn encodes_every_component_kind() {
    let r = record(
        LogLevel::Trace,
        vec![
            LogComponent::Integer(-12),
            LogComponent::UInteger(7),
            LogComponent::Real("1.5".to_string()),
            LogComponent::String("a\"b".to_string()),
            LogComponent::Boolean(false),
            LogComponent::Undefined,
            LogComponent::Null,
        ],
        0,
    );
    assert_eq!(
        encode_record(&r),
        r#"{"level":"TRACE","values":[-12,7,1.5,"a\"b",false,null,null],"ts":0}"#
    );
}

#[test]
fn encodes_smallest_integer() {
    let r = record(LogLevel::Info, vec![LogComponent::Integer(isize::MIN)], 1);
    let expected = format!(r#"{{"level":"INFO","values":[{}],"ts":1}}"#, isize::MIN);
    assert_eq!(encode_record(&r), expected);
}

#[test]
fn encodes_origin_and_properties() {
    let mut p = Properties::new();
    p.insert("env".to_string(), LogComponent::String("prod".to_string()));
    p.insert("n".to_string(), LogComponent::UInteger(2));
    let data = EventData {
        message: None,
        error: Some("boom".to_string()),
        file: Some("src/a.rs".to_string()),
        line: Some(42),
        module: Some("app::a".to_string()),
        target: Some("app".to_string()),
    };
    let r = LogEntryRequest::from_event(Level::Error, data, 99, Some(p));
    assert_eq!(
        encode_record(&r),
        r#"{"level":"ERROR","values":["boom"],"ts":99,"properties":{"env":"prod","n":2}}"#
    );
}

#[test]
fn event_without_message_or_line() {
    let data = EventData {
        message: None,
        error: None,
        file: Some("f.rs".to_string()),
        line: None,
        module: None,
        target: None,
    };
    let r = LogEntryRequest::from_event(Level::Debug, data, 3, None);
    assert_eq!(r.location.as_deref(), Some("f.rs"));
    assert_eq!(encode_record(&r), r#"{"level":"DEBUG","values":[""],"ts":3}"#);
}

#[test]
fn display_text_of_components() {
    assert_eq!(LogComponent::Integer(-3).to_display_string(), "-3");
    assert_eq!(LogComponent::UInteger(10).to_display_string(), "10");
    assert_eq!(LogComponent::String("a b".to_string()).to_display_string(), "a b");
    assert_eq!(LogComponent::Boolean(true).to_display_string(), "true");
    assert_eq!(LogComponent::Undefined.to_display_string(), "undefined");
    assert_eq!(LogComponent::Null.to_display_string(), "null");
}

#[test]
fn round_trip_preserves_record_contents() {
    let mut p = Properties::new();
    p.insert("req".to_string(), LogComponent::String("line\nbreak \u{1} é".to_string()));
    p.insert("n".to_string(), LogComponent::Integer(-4));
    let r = LogEntryRequest {
        level: LogLevel::Info,
        values: vec![
            LogComponent::String("tab\there".to_string()),
            LogComponent::UInteger(usize::MAX),
            LogComponent::Boolean(true),
            LogComponent::Null,
        ],
        ts: 1700000000123,
        target: None,
        module: None,
        location: None,
        properties: Some(p),
    };
    let text = encode_record(&r);
    let v: serde_json::Value = serde_json::from_str(&text).unwrap();
    assert_eq!(v["level"], "INFO");
    assert_eq!(v["ts"].as_u64(), Some(1700000000123));
    assert_eq!(v["values"][0], "tab\there");
    assert_eq!(v["values"][1].as_u64(), Some(usize::MAX as u64));
    assert_eq!(v["values"][2], true);
    assert!(v["values"][3].is_null());
    assert_eq!(v["properties"]["req"], "line\nbreak \u{1} é");
    assert_eq!(v["properties"]["n"].as_i64(), Some(-4));
    assert_eq!(v.as_object().unwrap().len(), 4);
}

#[test]
fn strings_are_escaped_as_json() {
    let r = record(
        LogLevel::Info,
        vec![LogComponent::String("q\"b\\n\nc\u{1}\u{8}\u{7f}é".to_string())],
        0,
    );
    assert_eq!(
        encode_record(&r),
        "{\"level\":\"INFO\",\"values\":[\"q\\\"b\\\\n\\nc\\u0001\\b\u{7f}é\"],\"ts\":0}"
    );
}

#[test]
fn reals_that_are_not_json_numbers_become_null() {
    let r = record(
        LogLevel::Info,
        vec![
            LogComponent::Real("-0.5e+10".to_string()),
            LogComponent::Real("0".to_string()),
            LogComponent::Real("NaN".to_string()),
            LogComponent::Real("01".to_string()),
            LogComponent::Real("1.".to_string()),
            LogComponent::Real("".to_string()),
        ],
        0,
    );
    assert_eq!(encode_record(&r), r#"{"level":"INFO","values":[-0.5e+10,0,null,null,null,null],"ts":0}"#);
}
