//! The dispatcher: configuration, event buffer and ambient properties, with
//! the operations producers and the flusher perform on them. Shared between
//! threads, the same operations run on an [`EventBuffer`] and a
//! [`PropertyOverlay`] held behind separate locks, with [`make_record`] run
//! under the overlay's lock and [`crate::flush::plan_cycle`] after a drain.

use vstd::prelude::*;

use crate::buffer::EventBuffer;
use crate::component::{ComponentView, LogComponent};
use crate::config::LogsConfig;
use crate::flush::{plan_cycle, planned_for, FlushPlan};
use crate::level::{log_level_of, spec_at_least, Level};
use crate::properties::{or_empty, overlay_map, Properties, PropertyOverlay};
use crate::record::{location_text, message_of, EventData, LogEntryRequest};

verus! {

/// `r` is the record made for an event at `level` with `data`, captured at
/// `ts` while the overlay held `overlay`.
pub open spec fn made_from_event(
    r: LogEntryRequest,
    level: Level,
    data: EventData,
    ts: usize,
    overlay: Option<Map<Seq<char>, ComponentView>>,
) -> bool {
    &&& r.level == log_level_of(level)
    &&& r@.values == seq![ComponentView::Text(message_of(data.message, data.error))]
    &&& r.ts == ts
    &&& r@.location == location_text(data.file, data.line)
    &&& r.target == data.target
    &&& r.module == data.module
    &&& overlay_map(r.properties) == overlay
}

/// The record for an event, or `None` when the event is below the
/// configured level. The record carries a snapshot of the overlay.
pub fn make_record(
    config: &LogsConfig,
    overlay: &PropertyOverlay,
    level: Level,
    data: EventData,
    ts: usize,
) -> (r: Option<LogEntryRequest>)
    ensures
        r is Some <==> spec_at_least(level, config.log_level),
        r matches Some(rec) ==> made_from_event(rec, level, data, ts, overlay@),
{
    if !level.at_least(config.log_level) {
        return None;
    }
    let ghost d = data;
    let r = LogEntryRequest::from_event(level, data, ts, overlay.snapshot());
    assert(made_from_event(r, level, d, ts, overlay@));
    Some(r)
}

/// The client's dispatcher.
#[derive(Debug)]
pub struct FreeLogLayer {
    config: LogsConfig,
    buffer: EventBuffer,
    properties: PropertyOverlay,
}

impl FreeLogLayer {
    /// The configuration the dispatcher was made with.
    pub closed spec fn spec_config(&self) -> LogsConfig {
        self.config
    }

    /// The records pending a flush, in the order they were appended.
    pub closed spec fn buffered(&self) -> Seq<LogEntryRequest> {
        self.buffer@
    }

    /// The ambient properties: `None` until first set.
    pub closed spec fn overlay(&self) -> Option<Map<Seq<char>, ComponentView>> {
        self.properties@
    }

    /// A dispatcher with an empty buffer and no ambient properties.
    pub fn new(config: LogsConfig) -> (r: FreeLogLayer)
        ensures
            r.spec_config() == config,
            r.buffered() == Seq::<LogEntryRequest>::empty(),
            r.overlay() is None,
    {
        FreeLogLayer { config, buffer: EventBuffer::new(), properties: PropertyOverlay::new() }
    }

    /// The configuration the dispatcher was made with.
    pub fn config(&self) -> (r: &LogsConfig)
        ensures
            *r == self.spec_config(),
    {
        &self.config
    }

    /// Replaces all ambient properties.
    pub fn with_properties(&mut self, properties: Properties)
        ensures
            final(self).overlay() == Some(properties@),
            final(self).buffered() == old(self).buffered(),
            final(self).spec_config() == old(self).spec_config(),
    {
        self.properties.replace_all(properties);
    }

    /// Sets one ambient property, replacing any earlier value.
    pub fn set_property(&mut self, name: &str, value: LogComponent)
        ensures
            final(self).overlay() == Some(or_empty(old(self).overlay()).insert(name@, value@)),
            final(self).buffered() == old(self).buffered(),
            final(self).spec_config() == old(self).spec_config(),
    {
        self.properties.set(String::from_str(name), value);
    }

    /// Removes one ambient property; an overlay never set becomes empty.
    pub fn remove_property(&mut self, name: &str)
        ensures
            final(self).overlay() == Some(or_empty(old(self).overlay()).remove(name@)),
            final(self).buffered() == old(self).buffered(),
            final(self).spec_config() == old(self).spec_config(),
    {
        self.properties.remove(name);
    }

    /// Appends a record to the buffer.
    pub fn append(&mut self, record: LogEntryRequest)
        ensures
            final(self).buffered() == old(self).buffered().push(record),
            final(self).overlay() == old(self).overlay(),
            final(self).spec_config() == old(self).spec_config(),
    {
        self.buffer.append(record);
    }

    /// Records an event captured at `ts`, unless it is below the configured
    /// level, in which case nothing changes. Returns whether it was recorded.
    pub fn on_event(&mut self, level: Level, data: EventData, ts: usize) -> (r: bool)
        ensures
            r == spec_at_least(level, old(self).spec_config().log_level),
            r ==> final(self).buffered().len() == old(self).buffered().len() + 1
                && final(self).buffered().drop_last() == old(self).buffered() && made_from_event(
                final(self).buffered().last(),
                level,
                data,
                ts,
                old(self).overlay(),
            ),
            !r ==> final(self).buffered() == old(self).buffered(),
            final(self).overlay() == old(self).overlay(),
            final(self).spec_config() == old(self).spec_config(),
    {
        match make_record(&self.config, &self.properties, level, data, ts) {
            Some(record) => {
                let ghost before = self.buffer@;
                self.buffer.append(record);
                assert(self.buffer@.drop_last() =~= before);
                true
            },
            None => false,
        }
    }

    /// Removes and returns every pending record, in insertion order.
    pub fn drain(&mut self) -> (r: Vec<LogEntryRequest>)
        ensures
            r@ == old(self).buffered(),
            final(self).buffered() == Seq::<LogEntryRequest>::empty(),
            final(self).overlay() == old(self).overlay(),
            final(self).spec_config() == old(self).spec_config(),
    {
        self.buffer.drain()
    }

    /// Starts a flush cycle: drains the buffer once and plans the cycle for
    /// the drained batch, returned with the plan. An empty drain plans
    /// nothing.
    pub fn prepare_flush(&mut self) -> (r: Option<(Vec<LogEntryRequest>, FlushPlan)>)
        ensures
            r is None <==> old(self).buffered().len() == 0,
            r matches Some((batch, plan)) ==> batch@ == old(self).buffered() && planned_for(
                plan,
                old(self).spec_config(),
                batch@,
            ),
            final(self).buffered() == Seq::<LogEntryRequest>::empty(),
            final(self).overlay() == old(self).overlay(),
            final(self).spec_config() == old(self).spec_config(),
    {
        let batch = self.drain();
        match plan_cycle(&self.config, &batch) {
            Some(plan) => Some((batch, plan)),
            None => None,
        }
    }
}

/// Records are snapshots: a record made while a property was set keeps
/// it after the property is removed, and a record made after the removal
/// does not have it.
pub proof fn lemma_snapshot_kept(
    overlay: Option<Map<Seq<char>, ComponentView>>,
    name: Seq<char>,
    value: ComponentView,
    a: LogEntryRequest,
    b: LogEntryRequest,
    level: Level,
    data_a: EventData,
    data_b: EventData,
    ts_a: usize,
    ts_b: usize,
)
    requires
        made_from_event(a, level, data_a, ts_a, Some(or_empty(overlay).insert(name, value))),
        made_from_event(
            b,
            level,
            data_b,
            ts_b,
            Some(or_empty(Some(or_empty(overlay).insert(name, value))).remove(name)),
        ),
    ensures
        overlay_map(a.properties) matches Some(m) && m.contains_key(name) && m[name] == value,
        overlay_map(b.properties) matches Some(m) && !m.contains_key(name),
{
}

} // verus!
