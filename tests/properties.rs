use free_log_client::properties::PropertyOverlay;
use free_log_client::{EventData, Level, LogComponent, LogEntryRequest, Properties};

fn text(c: Option<&LogComponent>) -> Option<String> {
    match c {
        Some(LogComponent::String(s)) => Some(s.clone()),
        _ => None,
    }
}

#[test]
fn insert_replaces_and_remove_deletes() {
    let mut p = Properties::new();
    p.insert("env".to_string(), LogComponent::String("dev".to_string()));
    p.insert("region".to_string(), LogComponent::UInteger(3));
    p.insert("env".to_string(), LogComponent::String("prod".to_string()));
    assert_eq!(p.len(), 2);
    assert_eq!(text(p.get("env")), Some("prod".to_string()));
    p.remove("env");
    assert!(p.get("env").is_none());
    assert_eq!(p.len(), 1);
    p.remove("missing");
    assert_eq!(p.len(), 1);
}

#[test]
fn entries_keep_first_set_order() {
    let mut p = Properties::new();
    p.insert("b".to_string(), LogComponent::Null);
    p.insert("a".to_string(), LogComponent::Null);
    p.insert("b".to_string(), LogComponent::Boolean(true));
    assert_eq!(p.entry(0).0, "b");
    assert_eq!(p.entry(1).0, "a");
}

fn event(message: &str) -> EventData {
    EventData {
        message: Some(message.to_string()),
        error: None,
        file: None,
        line: None,
        module: None,
        target: None,
    }
}

#[test]
fn property_snapshot_is_taken_at_creation() {
    let mut overlay = PropertyOverlay::new();
    overlay.set("env".to_string(), LogComponent::String("prod".to_string()));
    let a = LogEntryRequest::from_event(Level::Info, event("a"), 1, overlay.snapshot());
    overlay.remove("env");
    let b = LogEntryRequest::from_event(Level::Info, event("b"), 2, overlay.snapshot());
    assert_eq!(text(a.properties.as_ref().unwrap().get("env")), Some("prod".to_string()));
    assert!(b.properties.as_ref().unwrap().get("env").is_none());
}

#[test]
fn overlay_is_absent_until_set() {
    let mut overlay = PropertyOverlay::new();
    assert!(overlay.snapshot().is_none());
    overlay.remove("x");
    assert_eq!(overlay.snapshot().unwrap().len(), 0);
    let mut all = Properties::new();
    all.insert("k".to_string(), LogComponent::Integer(-1));
    overlay.replace_all(all);
    assert_eq!(overlay.snapshot().unwrap().len(), 1);
}

#[test]
fn event_fields_are_picked_by_name() {
    let mut f = Properties::new();
    f.insert("message".to_string(), LogComponent::String("hello".to_string()));
    f.insert("error".to_string(), LogComponent::Integer(3));
    f.insert("log.file".to_string(), LogComponent::String("a.rs".to_string()));
    f.insert("log.line".to_string(), LogComponent::UInteger(12));
    f.insert("log.module_path".to_string(), LogComponent::String("m".to_string()));
    f.insert("log.target".to_string(), LogComponent::String("t".to_string()));
    let d = EventData::from_fields(&f);
    assert_eq!(d.message.as_deref(), Some("hello"));
    assert!(d.error.is_none());
    assert_eq!(d.file.as_deref(), Some("a.rs"));
    assert_eq!(d.line, Some(12));
    assert_eq!(d.module.as_deref(), Some("m"));
    assert_eq!(d.target.as_deref(), Some("t"));
}

#[test]
fn negative_or_missing_line_is_absent() {
    let mut f = Properties::new();
    f.insert("log.line".to_string(), LogComponent::Integer(-1));
    assert_eq!(EventData::from_fields(&f).line, None);
    f.insert("log.line".to_string(), LogComponent::Integer(7));
    assert_eq!(EventData::from_fields(&f).line, Some(7));
    let d = EventData::from_fields(&Properties::new());
    assert!(d.message.is_none() && d.line.is_none());
}
