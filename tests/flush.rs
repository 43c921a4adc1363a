use free_log_client::flush::FlushErrors;
use free_log_client::{
    aggregate, plan_flush, reply_error, status_ok, ApiWriterConfig, FileWriterConfig, FlushError,
    Level, LogComponent, LogEntryRequest, LogLevel, LogsConfig, RemoteReply,
};

fn record(level: LogLevel, msg: &str) -> LogEntryRequest {
    LogEntryRequest {
        level,
        values: vec![LogComponent::String(msg.to_string())],
        ts: 1,
        target: None,
        module: None,
        location: None,
        properties: None,
    }
}

fn config() -> LogsConfig {
    LogsConfig::builder()
        .user_agent("ua")
        .with_api_writer(ApiWriterConfig::builder().api_url("http://a").log_level(Level::Warn))
        .unwrap()
        .with_api_writer(ApiWriterConfig::builder().api_url("http://b").log_level(Level::Error))
        .unwrap()
        .with_file_writer(FileWriterConfig::builder().file_path("x.log").log_level(Level::Warn))
        .unwrap()
        .build()
        .unwrap()
}

fn unsuccessful(e: &FlushError) -> &str {
    match e {
        FlushError::Unsuccessful(m) => m,
        _ => panic!("not unsuccessful: {e:?}"),
    }
}

#[test]
fn destination_receives_records_at_or_above_its_level() {
    let batch = vec![
        record(LogLevel::Trace, "t"),
        record(LogLevel::Warn, "w"),
        record(LogLevel::Error, "e"),
    ];
    let plan = plan_flush(&config(), &batch);
    let a = plan.remote[0].as_ref().unwrap();
    assert_eq!(a.url, "http://a/logs");
    assert_eq!(a.user_agent, "ua");
    assert_eq!(
        a.body,
        r#"[{"level":"WARN","values":["w"],"ts":1},{"level":"ERROR","values":["e"],"ts":1}]"#
    );
    let b = plan.remote[1].as_ref().unwrap();
    assert_eq!(b.body, r#"[{"level":"ERROR","values":["e"],"ts":1}]"#);
    let f = plan.files[0].as_ref().unwrap();
    assert_eq!(
        f.text,
        "{\"level\":\"WARN\",\"values\":[\"w\"],\"ts\":1}\n{\"level\":\"ERROR\",\"values\":[\"e\"],\"ts\":1}\n"
    );
}

#[test]
fn destination_with_nothing_selected_is_skipped() {
    let batch = vec![record(LogLevel::Warn, "w")];
    let plan = plan_flush(&config(), &batch);
    assert!(plan.remote[0].is_some());
    assert!(plan.remote[1].is_none());
}

#[test]
fn empty_batch_touches_no_destination() {
    let plan = plan_flush(&config(), &Vec::new());
    assert_eq!(plan.remote.len(), 2);
    assert!(plan.remote.iter().all(|d| d.is_none()));
    assert!(plan.files.iter().all(|d| d.is_none()));
    assert!(aggregate(Vec::new()).is_ok());
}

#[test]
fn status_success_range() {
    assert!(status_ok(200));
    assert!(status_ok(204));
    assert!(!status_ok(199));
    assert!(!status_ok(300));
    assert!(!status_ok(500));
}

fn reqwest_error() -> reqwest::Error {
    reqwest::Client::new().get("not a url").build().unwrap_err()
}

#[test]
fn replies_are_judged() {
    assert!(reply_error(RemoteReply::Answered { success: Some(true), shown: "x".to_string() }).is_none());
    let e = reply_error(RemoteReply::Answered { success: Some(false), shown: "{}".to_string() }).unwrap();
    assert_eq!(unsuccessful(&e), "Received unsuccessful response: {}");
    let e = reply_error(RemoteReply::Answered { success: None, shown: "[]".to_string() }).unwrap();
    assert_eq!(unsuccessful(&e), "Received unsuccessful response: []");
    let e = reply_error(RemoteReply::Rejected { text: Some("denied".to_string()) }).unwrap();
    assert_eq!(unsuccessful(&e), "denied");
    let e = reply_error(RemoteReply::Rejected { text: None }).unwrap();
    assert_eq!(unsuccessful(&e), "(failed to get response text)");
    assert!(matches!(reply_error(RemoteReply::Transport(reqwest_error())), Some(FlushError::Reqwest(_))));
    assert!(matches!(reply_error(RemoteReply::Unreadable(reqwest_error())), Some(FlushError::Reqwest(_))));
}

#[test]
fn one_failing_destination_of_two() {
    let batch = vec![record(LogLevel::Error, "e")];
    let plan = plan_flush(&config(), &batch);
    let mut errs = FlushErrors::new();
    errs.record(reply_error(RemoteReply::Rejected { text: Some("down".to_string()) }));
    errs.record(reply_error(RemoteReply::Answered { success: Some(true), shown: String::new() }));
    let second = plan.remote[1].as_ref().unwrap();
    assert_eq!(second.body, r#"[{"level":"ERROR","values":["e"],"ts":1}]"#);
    match errs.finish() {
        Err(FlushError::Unsuccessful(m)) => assert_eq!(m, "down"),
        other => panic!("{other:?}"),
    }
}

#[test]
fn aggregation_by_number_of_failures() {
    assert!(aggregate(vec![]).is_ok());
    match aggregate(vec![FlushError::Unsuccessful("a".to_string())]) {
        Err(FlushError::Unsuccessful(m)) => assert_eq!(m, "a"),
        other => panic!("{other:?}"),
    }
    let io = std::io::Error::new(std::io::ErrorKind::Other, "disk");
    let serde = serde_json::from_str::<serde_json::Value>("{").unwrap_err();
    match aggregate(vec![
        FlushError::Unsuccessful("a".to_string()),
        FlushError::IO(io),
        FlushError::Serde(serde),
    ]) {
        Err(FlushError::Multi(v)) => {
            assert_eq!(v.len(), 3);
            assert_eq!(unsuccessful(&v[0]), "a");
            assert!(matches!(v[1], FlushError::IO(_)));
            assert!(matches!(v[2], FlushError::Serde(_)));
        }
        other => panic!("{other:?}"),
    }
}

#[test]
fn successes_are_not_failures() {
    let mut errs = FlushErrors::new();
    errs.record(None);
    errs.record(None);
    assert!(errs.finish().is_ok());
    let mut errs = FlushErrors::new();
    errs.push(FlushError::Unsuccessful("x".to_string()));
    errs.record(Some(FlushError::Unsuccessful("y".to_string())));
    match errs.finish() {
        Err(FlushError::Multi(v)) => assert_eq!(v.len(), 2),
        other => panic!("{other:?}"),
    }
}

#[test]
fn successive_file_payloads_append() {
    let cfg = config();
    let first = plan_flush(&cfg, &vec![record(LogLevel::Warn, "one")]);
    let second = plan_flush(&cfg, &vec![record(LogLevel::Warn, "two")]);
    let both = plan_flush(&cfg, &vec![record(LogLevel::Warn, "one"), record(LogLevel::Warn, "two")]);
    let mut file = String::new();
    file.push_str(&first.files[0].as_ref().unwrap().text);
    file.push_str(&second.files[0].as_ref().unwrap().text);
    assert_eq!(file, both.files[0].as_ref().unwrap().text);
    assert_eq!(file.lines().count(), 2);
}
