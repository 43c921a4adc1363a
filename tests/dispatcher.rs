use free_log_client::buffer::EventBuffer;
use free_log_client::monitor::FLUSH_INTERVAL_MS;
use free_log_client::{
    with_origin, ApiWriterConfig, EventData, FlushError, FreeLogLayer, Level, LogComponent,
    LogEntryRequest, LogLevel, LogsConfig, Monitor, MonitorAction, MonitorEvent, MonitorState,
    Properties,
};

fn record(ts: usize) -> LogEntryRequest {
    LogEntryRequest {
        level: LogLevel::Info,
        values: vec![],
        ts,
        target: None,
        module: None,
        location: None,
        properties: None,
    }
}

fn event(message: &str) -> EventData {
    EventData {
        message: Some(message.to_string()),
        error: None,
        file: None,
        line: None,
        module: None,
        target: None,
    }
}

#[test]
fn drain_takes_everything_once() {
    let mut b = EventBuffer::new();
    b.append(record(1));
    b.append(record(2));
    let first = b.drain();
    b.append(record(3));
    assert_eq!(first.iter().map(|r| r.ts).collect::<Vec<_>>(), vec![1, 2]);
    assert_eq!(b.len(), 1);
    let second = b.drain();
    assert_eq!(second.iter().map(|r| r.ts).collect::<Vec<_>>(), vec![3]);
    assert!(b.drain().is_empty());
}

#[test]
fn interleaved_appends_and_a_drain_lose_nothing() {
    let mut layer = FreeLogLayer::new(LogsConfig::builder().build().unwrap());
    for i in 0..10usize {
        layer.append(record(i));
    }
    let first = layer.drain();
    for i in 10..15usize {
        layer.append(record(i));
    }
    let rest = layer.drain();
    let all: Vec<usize> = first.iter().chain(rest.iter()).map(|r| r.ts).collect();
    assert_eq!(all, (0..15usize).collect::<Vec<_>>());
    assert_eq!(first.len(), 10);
}

#[test]
fn events_below_level_are_dropped() {
    let config = LogsConfig::builder().log_level(Level::Warn).build().unwrap();
    let mut layer = FreeLogLayer::new(config);
    assert!(!layer.on_event(Level::Info, event("quiet"), 1));
    assert!(layer.on_event(Level::Error, event("loud"), 2));
    let batch = layer.drain();
    assert_eq!(batch.len(), 1);
    assert_eq!(batch[0].level, LogLevel::Error);
}

#[test]
fn events_carry_ambient_properties() {
    let mut layer = FreeLogLayer::new(LogsConfig::builder().build().unwrap());
    layer.set_property("env", LogComponent::String("prod".to_string()));
    layer.on_event(Level::Info, event("a"), 1);
    layer.remove_property("env");
    layer.on_event(Level::Info, event("b"), 2);
    let mut all = Properties::new();
    all.insert("id".to_string(), LogComponent::UInteger(9));
    layer.with_properties(all);
    layer.on_event(Level::Info, event("c"), 3);
    let batch = layer.drain();
    assert!(batch[0].properties.as_ref().unwrap().get("env").is_some());
    assert!(batch[1].properties.as_ref().unwrap().get("env").is_none());
    assert!(batch[2].properties.as_ref().unwrap().get("id").is_some());
}

#[test]
fn prepare_flush_on_empty_buffer_is_none() {
    let config = LogsConfig::builder()
        .with_api_writer(ApiWriterConfig::builder().api_url("http://a"))
        .unwrap()
        .build()
        .unwrap();
    let mut layer = FreeLogLayer::new(config);
    assert!(layer.prepare_flush().is_none());
    layer.on_event(Level::Info, event("x"), 1);
    let (batch, plan) = layer.prepare_flush().unwrap();
    assert_eq!(batch.len(), 1);
    assert!(plan.remote[0].is_some());
    assert!(layer.prepare_flush().is_none());
}

#[test]
fn scheduler_keeps_running_after_failure() {
    assert_eq!(FLUSH_INTERVAL_MS, 1000);
    let mut m = Monitor::new();
    assert!(matches!(m.step(MonitorEvent::Tick), MonitorAction::StartFlush));
    assert_eq!(m.state, MonitorState::Running);
    assert!(matches!(m.step(MonitorEvent::Tick), MonitorAction::Wait));
    let failed = MonitorEvent::FlushDone(Err(FlushError::Unsuccessful("x".to_string())));
    assert!(matches!(m.step(failed), MonitorAction::Report(FlushError::Unsuccessful(_))));
    assert_eq!(m.state, MonitorState::Idle);
    assert!(matches!(m.step(MonitorEvent::Tick), MonitorAction::StartFlush));
    assert!(matches!(m.step(MonitorEvent::FlushDone(Ok(()))), MonitorAction::Wait));
    assert_eq!(m.state, MonitorState::Idle);
}

#[test]
fn received_records_get_their_origin() {
    let out = with_origin(vec![record(1), record(2)], "1.2.3.4", "agent");
    assert_eq!(out.len(), 2);
    assert_eq!(out[0].ts, 1);
    assert_eq!(out[1].ts, 2);
    assert_eq!(out[1].ip, "1.2.3.4");
    assert_eq!(out[0].user_agent, "agent");
}

#[test]
fn monitor_error_carries_io_error() {
    let e = free_log_client::MonitorError::IO(std::io::Error::new(std::io::ErrorKind::Other, "x"));
    assert!(matches!(e, free_log_client::MonitorError::IO(_)));
}

#[test]
fn components_from_plain_values() {
    assert!(matches!(LogComponent::from(-2isize), LogComponent::Integer(-2)));
    assert!(matches!(LogComponent::from(2usize), LogComponent::UInteger(2)));
    assert!(matches!(LogComponent::from(true), LogComponent::Boolean(true)));
    assert!(matches!(LogComponent::from("s".to_string()), LogComponent::String(_)));
}

#[test]
fn stored_message_of_received_record() {
    let mut p = Properties::new();
    p.insert("k\"".to_string(), LogComponent::Boolean(true));
    p.insert("n".to_string(), LogComponent::Integer(-1));
    let mut r = record(5);
    r.level = LogLevel::Warn;
    r.values = vec![LogComponent::String("a".to_string()), LogComponent::UInteger(2)];
    r.properties = Some(p);
    let out = with_origin(vec![r, record(6)], "1.2.3.4", "ua");
    assert_eq!(
        out[0].message(),
        "WARN:\n\n\t[a, 2]\n\n\tip=1.2.3.4\n\n\tuser_agent=ua\n\n\tproperties=Some({\"k\\\"\": true, \"n\": -1})"
    );
    assert_eq!(
        out[1].message(),
        "INFO:\n\n\t[]\n\n\tip=1.2.3.4\n\n\tuser_agent=ua\n\n\tproperties=None"
    );
}

#[test]
fn record_made_for_event_under_overlay() {
    let config = LogsConfig::builder().log_level(Level::Info).build().unwrap();
    let mut overlay = free_log_client::PropertyOverlay::new();
    assert!(free_log_client::make_record(&config, &overlay, Level::Debug, event("low"), 1).is_none());
    overlay.set("req".to_string(), LogComponent::UInteger(7));
    let data = EventData {
        message: None,
        error: Some("bad".to_string()),
        file: Some("a.rs".to_string()),
        line: Some(3),
        module: Some("m".to_string()),
        target: Some("t".to_string()),
    };
    let r = free_log_client::make_record(&config, &overlay, Level::Warn, data, 42).unwrap();
    assert_eq!(r.level, LogLevel::Warn);
    assert_eq!(r.ts, 42);
    assert!(matches!(&r.values[..], [LogComponent::String(s)] if s == "bad"));
    assert_eq!(r.location.as_deref(), Some("a.rs:3"));
    assert_eq!(r.target.as_deref(), Some("t"));
    assert_eq!(r.module.as_deref(), Some("m"));
    assert!(matches!(r.properties.as_ref().unwrap().get("req"), Some(LogComponent::UInteger(7))));
}
