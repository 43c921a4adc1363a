//! A log-shipping client: records are buffered in memory and flushed, filtered
//! per destination, to remote ingestion endpoints and append-only files.
//!
//! - [`level`]: severities and their order.
//! - [`component`], [`properties`], [`record`]: the data carried by a record.
//! - [`wire`]: the JSON text of records.
//! - [`config`]: destinations and client settings.
//! - [`buffer`]: the event buffer and its drain.
//! - [`flush`]: one flush cycle: selection, payloads, replies, failures.
//! - [`layer`]: the dispatcher shared by producers and the flusher.
//! - [`monitor`]: the periodic flush scheduler.
//! - [`ingest`]: records as the ingestion side receives and stores them.

pub mod buffer;
pub mod component;
pub mod config;
pub mod flush;
pub mod ingest;
pub mod layer;
pub mod level;
pub mod monitor;
pub mod properties;
pub mod record;
pub mod wire;

pub use buffer::EventBuffer;
pub use component::{ComponentView, LogComponent};
pub use config::{
    ApiWriterConfig, ApiWriterConfigBuilder, BuildApiWriterConfigError, BuildFileWriterConfigError,
    BuildLogsConfigError, EnvFilter, EnvFilterError, FileWriterConfig, FileWriterConfigBuilder,
    FilterSource, LogsConfig, LogsConfigBuilder,
};
pub use flush::{
    aggregate, plan_cycle, plan_flush, reply_error, status_ok, FileDelivery, FlushError, FlushErrors, FlushPlan,
    RemoteDelivery, RemoteReply,
};
pub use ingest::{with_origin, CreateLogsQuery, GetLogsQuery, LogEntry};
pub use layer::{make_record, FreeLogLayer};
pub use level::{level_int, Level, LogLevel};
pub use monitor::{Monitor, MonitorAction, MonitorError, MonitorEvent, MonitorState};
pub use properties::{Properties, PropertyOverlay};
pub use record::{EventData, LogEntryRequest};
