//! Log records and their construction from captured events.

use vstd::prelude::*;

use crate::component::{ComponentView, LogComponent};
use crate::level::{log_level_of, Level, LogLevel};
use crate::properties::{PairsView, Properties};
use crate::wire::{decimal, write_decimal};

verus! {

/// One emitted event, as buffered and shipped.
#[derive(Debug)]
pub struct LogEntryRequest {
    pub level: LogLevel,
    pub values: Vec<LogComponent>,
    /// Milliseconds since the epoch when the record was created.
    pub ts: usize,
    pub target: Option<String>,
    pub module: Option<String>,
    pub location: Option<String>,
    pub properties: Option<Properties>,
}

/// The content of a [`LogEntryRequest`].
pub ghost struct RecordView {
    pub level: LogLevel,
    pub values: Seq<ComponentView>,
    pub ts: nat,
    pub target: Option<Seq<char>>,
    pub module: Option<Seq<char>>,
    pub location: Option<Seq<char>>,
    /// Property entries in order; their map is `map_of` of them.
    pub properties: Option<PairsView>,
}

/// The characters of an optional string.
pub open spec fn opt_view(o: Option<String>) -> Option<Seq<char>> {
    match o {
        Some(s) => Some(s@),
        None => None,
    }
}

impl View for LogEntryRequest {
    type V = RecordView;

    open spec fn view(&self) -> RecordView {
        RecordView {
            level: self.level,
            values: self.values@.map_values(|c: LogComponent| c@),
            ts: self.ts as nat,
            target: opt_view(self.target),
            module: opt_view(self.module),
            location: opt_view(self.location),
            properties: match self.properties {
                Some(p) => Some(p.pairs()),
                None => None,
            },
        }
    }
}

/// What the event source extracted from one captured event.
#[derive(Debug)]
pub struct EventData {
    pub message: Option<String>,
    pub error: Option<String>,
    pub file: Option<String>,
    pub line: Option<u64>,
    pub module: Option<String>,
    pub target: Option<String>,
}

/// The message text of an event: its message, else its error, else empty.
pub open spec fn message_of(message: Option<String>, error: Option<String>) -> Seq<char> {
    match message {
        Some(m) => m@,
        None => match error {
            Some(e) => e@,
            None => Seq::empty(),
        },
    }
}

/// The source location of an event: `file:line` when both are known,
/// else the file alone.
pub open spec fn location_text(file: Option<String>, line: Option<u64>) -> Option<Seq<char>> {
    match file {
        Some(f) => match line {
            Some(l) => Some(f@ + ":"@ + decimal(l as nat)),
            None => Some(f@),
        },
        None => None,
    }
}

/// Formats the source location of an event.
pub fn location_of(file: Option<String>, line: Option<u64>) -> (r: Option<String>)
    ensures
        opt_view(r) == location_text(file, line),
{
    match file {
        Some(f) => match line {
            Some(l) => {
                let mut s = f;
                s.append(":");
                write_decimal(l, &mut s);
                Some(s)
            },
            None => Some(f),
        },
        None => None,
    }
}

impl LogEntryRequest {
    /// Builds the record for an event captured at `ts` with the given
    /// snapshot of the ambient properties.
    pub fn from_event(level: Level, data: EventData, ts: usize, properties: Option<Properties>) -> (r:
        LogEntryRequest)
        ensures
            r.level == log_level_of(level),
            r@.values == seq![ComponentView::Text(message_of(data.message, data.error))],
            r.ts == ts,
            r@.location == location_text(data.file, data.line),
            r.target == data.target,
            r.module == data.module,
            r.properties == properties,
    {
        let ghost expected = message_of(data.message, data.error);
        let EventData { message, error, file, line, module, target } = data;
        let text = match message {
            Some(m) => m,
            None => match error {
                Some(e) => e,
                None => String::new(),
            },
        };
        let mut values: Vec<LogComponent> = Vec::new();
        values.push(LogComponent::String(text));
        let r = LogEntryRequest {
            level: LogLevel::from(level),
            values,
            ts,
            target,
            module,
            location: location_of(file, line),
            properties,
        };
        assert(r@.values =~= seq![ComponentView::Text(expected)]);
        r
    }
}

} // verus!

verus! {

impl LogEntryRequest {
    /// The client-side level of this record's severity.
    pub fn level_value(&self) -> (r: Level)
        ensures
            r == crate::level::level_of(self.level),
    {
        Level::from(self.level)
    }
}

} // verus!

verus! {

/// The text of field `name`, if it is a string.
pub open spec fn text_field(fields: Map<Seq<char>, ComponentView>, name: Seq<char>) -> Option<
    Seq<char>,
> {
    if fields.contains_key(name) {
        match fields[name] {
            ComponentView::Text(s) => Some(s),
            _ => None,
        }
    } else {
        None
    }
}

/// The value of field `name`, if it is a number that fits in a `u64`.
pub open spec fn count_field(fields: Map<Seq<char>, ComponentView>, name: Seq<char>) -> Option<u64> {
    if fields.contains_key(name) {
        match fields[name] {
            ComponentView::UInteger(n) => if n <= u64::MAX {
                Some(n as u64)
            } else {
                None
            },
            ComponentView::Integer(i) => if 0 <= i <= u64::MAX {
                Some(i as u64)
            } else {
                None
            },
            _ => None,
        }
    } else {
        None
    }
}

fn take_text(fields: &Properties, name: &str) -> (r: Option<String>)
    ensures
        opt_view(r) == text_field(fields@, name@),
{
    match fields.get(name) {
        Some(LogComponent::String(s)) => Some(s.clone()),
        _ => None,
    }
}

impl EventData {
    /// Picks the message, error and origin of an event from its recorded
    /// fields. An event made with `#[instrument(err)]` has no message, only
    /// an `error` field.
    pub fn from_fields(fields: &Properties) -> (r: EventData)
        ensures
            opt_view(r.message) == text_field(fields@, "message"@),
            opt_view(r.error) == text_field(fields@, "error"@),
            opt_view(r.file) == text_field(fields@, "log.file"@),
            r.line == count_field(fields@, "log.line"@),
            opt_view(r.module) == text_field(fields@, "log.module_path"@),
            opt_view(r.target) == text_field(fields@, "log.target"@),
    {
        let line = match fields.get("log.line") {
            Some(LogComponent::UInteger(n)) => Some(*n as u64),
            Some(LogComponent::Integer(i)) => if *i >= 0 {
                Some(*i as u64)
            } else {
                None
            },
            _ => None,
        };
        EventData {
            message: take_text(fields, "message"),
            error: take_text(fields, "error"),
            file: take_text(fields, "log.file"),
            line,
            module: take_text(fields, "log.module_path"),
            target: take_text(fields, "log.target"),
        }
    }
}

} // verus!
