//! Destination and client configuration, built once and validated.

use vstd::prelude::*;

use crate::level::Level;
use crate::record::opt_view;

verus! {

/// The caller identifier used when none is configured.
pub open spec fn default_user_agent() -> Seq<char> {
    "free_log_rust_client"@
}

/// A remote log-ingestion destination.
#[derive(Debug, Clone)]
pub struct ApiWriterConfig {
    pub user_agent: String,
    pub api_url: String,
    pub log_level: Level,
}

/// Collects the settings of an [`ApiWriterConfig`].
#[derive(Debug, Clone)]
pub struct ApiWriterConfigBuilder {
    user_agent: Option<String>,
    api_url: Option<String>,
    log_level: Option<Level>,
}

/// Why an [`ApiWriterConfig`] could not be built.
#[derive(Debug)]
pub enum BuildApiWriterConfigError {
    MissingRequiredProperty(String),
}

/// `c` is what `b` builds: its URL, its caller identifier or the default,
/// its level or `Trace`.
pub open spec fn api_built(b: ApiWriterConfigBuilder, c: ApiWriterConfig) -> bool {
    &&& Some(c.api_url@) == b.api_url_set()
    &&& c.user_agent@ == match b.user_agent_set() {
        Some(u) => u,
        None => default_user_agent(),
    }
    &&& c.log_level == match b.log_level_set() {
        Some(l) => l,
        None => Level::Trace,
    }
}

impl ApiWriterConfig {
    /// A builder with nothing set.
    pub fn builder() -> (r: ApiWriterConfigBuilder)
        ensures
            r.user_agent_set() is None,
            r.api_url_set() is None,
            r.log_level_set() is None,
    {
        ApiWriterConfigBuilder { user_agent: None, api_url: None, log_level: None }
    }
}

impl ApiWriterConfigBuilder {
    /// The caller identifier set so far.
    pub closed spec fn user_agent_set(&self) -> Option<Seq<char>> {
        match self.user_agent {
            Some(s) => Some(s@),
            None => None,
        }
    }

    /// The base URL set so far.
    pub closed spec fn api_url_set(&self) -> Option<Seq<char>> {
        match self.api_url {
            Some(s) => Some(s@),
            None => None,
        }
    }

    /// The minimum severity set so far.
    pub closed spec fn log_level_set(&self) -> Option<Level> {
        self.log_level
    }

    /// Sets the caller identifier.
    pub fn user_agent(self, value: &str) -> (r: ApiWriterConfigBuilder)
        ensures
            r.user_agent_set() == Some(value@),
            r.api_url_set() == self.api_url_set(),
            r.log_level_set() == self.log_level_set(),
    {
        let mut b = self;
        b.user_agent = Some(String::from_str(value));
        b
    }

    /// Sets the base URL.
    pub fn api_url(self, value: &str) -> (r: ApiWriterConfigBuilder)
        ensures
            r.api_url_set() == Some(value@),
            r.user_agent_set() == self.user_agent_set(),
            r.log_level_set() == self.log_level_set(),
    {
        let mut b = self;
        b.api_url = Some(String::from_str(value));
        b
    }

    /// Sets the minimum severity.
    pub fn log_level(self, value: Level) -> (r: ApiWriterConfigBuilder)
        ensures
            r.log_level_set() == Some(value),
            r.user_agent_set() == self.user_agent_set(),
            r.api_url_set() == self.api_url_set(),
    {
        let mut b = self;
        b.log_level = Some(value);
        b
    }

    /// Builds the destination. The URL is required; the caller identifier
    /// defaults to `free_log_rust_client` and the severity to `Trace`.
    pub fn build(self) -> (r: Result<ApiWriterConfig, BuildApiWriterConfigError>)
        ensures
            self.api_url_set() is None <==> r is Err,
            r matches Err(BuildApiWriterConfigError::MissingRequiredProperty(p)) ==> p@ == "api_url"@,
            r matches Ok(c) ==> api_built(self, c),
    {
        let api_url = match self.api_url {
            Some(u) => u,
            None => {
                return Err(
                    BuildApiWriterConfigError::MissingRequiredProperty(String::from_str("api_url")),
                );
            },
        };
        let user_agent = match self.user_agent {
            Some(u) => u,
            None => String::from_str("free_log_rust_client"),
        };
        let log_level = match self.log_level {
            Some(l) => l,
            None => Level::Trace,
        };
        Ok(ApiWriterConfig { user_agent, api_url, log_level })
    }
}

/// An append-only file destination.
#[derive(Debug, Clone)]
pub struct FileWriterConfig {
    pub path: String,
    pub log_level: Level,
}

/// Collects the settings of a [`FileWriterConfig`].
#[derive(Debug, Clone)]
pub struct FileWriterConfigBuilder {
    path: Option<String>,
    log_level: Option<Level>,
}

/// Why a [`FileWriterConfig`] could not be built.
#[derive(Debug)]
pub enum BuildFileWriterConfigError {
    MissingRequiredProperty(String),
}

/// `c` is what `b` builds: its path, its level or `Trace`.
pub open spec fn file_built(b: FileWriterConfigBuilder, c: FileWriterConfig) -> bool {
    &&& Some(c.path@) == b.path_set()
    &&& c.log_level == match b.log_level_set() {
        Some(l) => l,
        None => Level::Trace,
    }
}

impl FileWriterConfig {
    /// A builder with nothing set.
    pub fn builder() -> (r: FileWriterConfigBuilder)
        ensures
            r.path_set() is None,
            r.log_level_set() is None,
    {
        FileWriterConfigBuilder { path: None, log_level: None }
    }
}

impl FileWriterConfigBuilder {
    /// The file path set so far.
    pub closed spec fn path_set(&self) -> Option<Seq<char>> {
        match self.path {
            Some(s) => Some(s@),
            None => None,
        }
    }

    /// The minimum severity set so far.
    pub closed spec fn log_level_set(&self) -> Option<Level> {
        self.log_level
    }

    /// Sets the file path.
    pub fn file_path(self, value: &str) -> (r: FileWriterConfigBuilder)
        ensures
            r.path_set() == Some(value@),
            r.log_level_set() == self.log_level_set(),
    {
        let mut b = self;
        b.path = Some(String::from_str(value));
        b
    }

    /// Sets the minimum severity.
    pub fn log_level(self, value: Level) -> (r: FileWriterConfigBuilder)
        ensures
            r.log_level_set() == Some(value),
            r.path_set() == self.path_set(),
    {
        let mut b = self;
        b.log_level = Some(value);
        b
    }

    /// Builds the destination. The path is required; the severity defaults
    /// to `Trace`.
    pub fn build(self) -> (r: Result<FileWriterConfig, BuildFileWriterConfigError>)
        ensures
            self.path_set() is None <==> r is Err,
            r matches Err(BuildFileWriterConfigError::MissingRequiredProperty(p)) ==> p@ == "path"@,
            r matches Ok(c) ==> file_built(self, c),
    {
        let path = match self.path {
            Some(p) => p,
            None => {
                return Err(
                    BuildFileWriterConfigError::MissingRequiredProperty(String::from_str("path")),
                );
            },
        };
        let log_level = match self.log_level {
            Some(l) => l,
            None => Level::Trace,
        };
        Ok(FileWriterConfig { path, log_level })
    }
}

} // verus!

verus! {

/// `tracing_subscriber::filter::ParseError`, carried opaque: a filter
/// directive that did not parse.
#[verifier::external_type_specification]
#[verifier::external_body]
pub struct ExDirectiveParseError(tracing_subscriber::filter::ParseError);

/// Where the event filter of the client takes its directives from.
#[derive(Debug, Clone)]
pub struct EnvFilter {
    directives: Option<String>,
    from_env: Option<String>,
    from_default_env: bool,
}

/// How to build the event filter that an [`EnvFilter`] describes.
#[derive(Debug)]
pub enum FilterSource {
    /// Read the named environment variable, then add `directives` if any.
    Env { name: String, directives: Option<String> },
    /// Read the default environment variable, then add `directives` if any.
    DefaultEnv { directives: Option<String> },
    /// Use these directives alone.
    Directives(String),
}

/// Why an [`EnvFilter`] could not become a filter.
#[derive(Debug)]
pub enum EnvFilterError {
    InvalidConfiguration,
    Parse(tracing_subscriber::filter::ParseError),
}

impl EnvFilter {
    /// The directives given, if any.
    pub closed spec fn directives_set(&self) -> Option<Seq<char>> {
        match self.directives {
            Some(s) => Some(s@),
            None => None,
        }
    }

    /// The environment variable named, if any.
    pub closed spec fn env_set(&self) -> Option<Seq<char>> {
        match self.from_env {
            Some(s) => Some(s@),
            None => None,
        }
    }

    /// Whether the default environment variable is to be read.
    pub closed spec fn default_env_set(&self) -> bool {
        self.from_default_env
    }

    /// A filter given by directives.
    pub fn new(directives: &str) -> (r: EnvFilter)
        ensures
            r.directives_set() == Some(directives@),
            r.env_set() is None,
            !r.default_env_set(),
    {
        EnvFilter { directives: Some(String::from_str(directives)), from_env: None, from_default_env: false }
    }

    /// A filter read from the environment variable `env`.
    pub fn from_env(env: &str) -> (r: EnvFilter)
        ensures
            r.directives_set() is None,
            r.env_set() == Some(env@),
            !r.default_env_set(),
    {
        EnvFilter { directives: None, from_env: Some(String::from_str(env)), from_default_env: false }
    }

    /// A filter read from the default environment variable.
    pub fn from_default_env() -> (r: EnvFilter)
        ensures
            r.directives_set() is None,
            r.env_set() is None,
            r.default_env_set(),
    {
        EnvFilter { directives: None, from_env: None, from_default_env: true }
    }

    /// Decides how the filter is built: a named variable comes first, then
    /// the default variable, then the directives alone; with none of them
    /// the configuration is invalid.
    pub fn source(&self) -> (r: Result<FilterSource, EnvFilterError>)
        ensures
            self.env_set() matches Some(name) ==> (r matches Ok(
                FilterSource::Env { name: n, directives: d },
            ) && n@ == name && opt_view(d) == self.directives_set()),
            (self.env_set() is None && self.default_env_set()) ==> (r matches Ok(
                FilterSource::DefaultEnv { directives: d },
            ) && opt_view(d) == self.directives_set()),
            (self.env_set() is None && !self.default_env_set()) ==> match self.directives_set() {
                Some(x) => (r matches Ok(FilterSource::Directives(d)) && d@ == x),
                None => r matches Err(EnvFilterError::InvalidConfiguration),
            },
    {
        match &self.from_env {
            Some(name) => Ok(FilterSource::Env { name: name.clone(), directives: self.directives.clone() }),
            None => {
                if self.from_default_env {
                    Ok(FilterSource::DefaultEnv { directives: self.directives.clone() })
                } else {
                    match &self.directives {
                        Some(d) => Ok(FilterSource::Directives(d.clone())),
                        None => Err(EnvFilterError::InvalidConfiguration),
                    }
                }
            },
        }
    }
}

/// The client's configuration.
#[derive(Debug)]
pub struct LogsConfig {
    pub user_agent: String,
    pub api_writers: Vec<ApiWriterConfig>,
    pub file_writers: Vec<FileWriterConfig>,
    /// Events below this severity are not recorded.
    pub log_level: Level,
    pub auto_flush: bool,
    pub auto_flush_on_close: bool,
    pub env_filter: Option<EnvFilter>,
}

/// Collects the settings of a [`LogsConfig`].
#[derive(Debug)]
pub struct LogsConfigBuilder {
    user_agent: Option<String>,
    api_writers: Vec<ApiWriterConfig>,
    file_writers: Vec<FileWriterConfig>,
    log_level: Option<Level>,
    auto_flush: Option<bool>,
    auto_flush_on_close: Option<bool>,
    env_filter: Option<EnvFilter>,
}

/// Why a [`LogsConfig`] could not be built.
#[derive(Debug)]
pub enum BuildLogsConfigError {
    MissingRequiredProperty(String),
}

impl LogsConfig {
    /// A builder with nothing set.
    pub fn builder() -> (r: LogsConfigBuilder)
        ensures
            r.user_agent_set() is None,
            r.api_writers_set().len() == 0,
            r.file_writers_set().len() == 0,
            r.log_level_set() is None,
            r.auto_flush_set() is None,
            r.auto_flush_on_close_set() is None,
            r.env_filter_set() is None,
    {
        LogsConfigBuilder {
            user_agent: None,
            api_writers: Vec::new(),
            file_writers: Vec::new(),
            log_level: None,
            auto_flush: None,
            auto_flush_on_close: None,
            env_filter: None,
        }
    }
}

impl LogsConfigBuilder {
    /// The caller identifier set so far.
    pub closed spec fn user_agent_set(&self) -> Option<Seq<char>> {
        match self.user_agent {
            Some(s) => Some(s@),
            None => None,
        }
    }

    /// The remote destinations added so far.
    pub closed spec fn api_writers_set(&self) -> Seq<ApiWriterConfig> {
        self.api_writers@
    }

    /// The file destinations added so far.
    pub closed spec fn file_writers_set(&self) -> Seq<FileWriterConfig> {
        self.file_writers@
    }

    /// The record severity threshold set so far.
    pub closed spec fn log_level_set(&self) -> Option<Level> {
        self.log_level
    }

    /// The periodic flush switch set so far.
    pub closed spec fn auto_flush_set(&self) -> Option<bool> {
        self.auto_flush
    }

    /// The flush-on-close switch set so far.
    pub closed spec fn auto_flush_on_close_set(&self) -> Option<bool> {
        self.auto_flush_on_close
    }

    /// The event filter set so far.
    pub closed spec fn env_filter_set(&self) -> Option<EnvFilter> {
        self.env_filter
    }

    /// Whether `r` differs from `self` at most in the settings that
    /// `changed` lists by position: caller identifier, remote destinations,
    /// file destinations, level, periodic flush, flush on close, filter.
    pub closed spec fn same_except(&self, r: &LogsConfigBuilder, changed: Seq<bool>) -> bool {
        &&& (!changed[0] ==> r.user_agent_set() == self.user_agent_set())
        &&& (!changed[1] ==> r.api_writers_set() == self.api_writers_set())
        &&& (!changed[2] ==> r.file_writers_set() == self.file_writers_set())
        &&& (!changed[3] ==> r.log_level_set() == self.log_level_set())
        &&& (!changed[4] ==> r.auto_flush_set() == self.auto_flush_set())
        &&& (!changed[5] ==> r.auto_flush_on_close_set() == self.auto_flush_on_close_set())
        &&& (!changed[6] ==> r.env_filter_set() == self.env_filter_set())
    }

    /// Sets the caller identifier.
    pub fn user_agent(self, value: &str) -> (r: LogsConfigBuilder)
        ensures
            r.user_agent_set() == Some(value@),
            self.same_except(&r, seq![true, false, false, false, false, false, false]),
    {
        let mut b = self;
        b.user_agent = Some(String::from_str(value));
        b
    }

    /// Adds a remote destination built from `value`.
    pub fn with_api_writer(self, value: ApiWriterConfigBuilder) -> (r: Result<
        LogsConfigBuilder,
        BuildApiWriterConfigError,
    >)
        ensures
            value.api_url_set() is None <==> r is Err,
            r matches Err(BuildApiWriterConfigError::MissingRequiredProperty(p)) ==> p@ == "api_url"@,
            r matches Ok(b) ==> {
                &&& b.api_writers_set().len() == self.api_writers_set().len() + 1
                &&& b.api_writers_set().drop_last() == self.api_writers_set()
                &&& api_built(value, b.api_writers_set().last())
                &&& self.same_except(&b, seq![false, true, false, false, false, false, false])
            },
    {
        match value.build() {
            Ok(c) => {
                let mut b = self;
                b.api_writers.push(c);
                proof {
                    assert(b.api_writers@.drop_last() =~= self.api_writers@);
                }
                Ok(b)
            },
            Err(e) => Err(e),
        }
    }

    /// Adds a file destination built from `value`.
    pub fn with_file_writer(self, value: FileWriterConfigBuilder) -> (r: Result<
        LogsConfigBuilder,
        BuildFileWriterConfigError,
    >)
        ensures
            value.path_set() is None <==> r is Err,
            r matches Err(BuildFileWriterConfigError::MissingRequiredProperty(p)) ==> p@ == "path"@,
            r matches Ok(b) ==> {
                &&& b.file_writers_set().len() == self.file_writers_set().len() + 1
                &&& b.file_writers_set().drop_last() == self.file_writers_set()
                &&& file_built(value, b.file_writers_set().last())
                &&& self.same_except(&b, seq![false, false, true, false, false, false, false])
            },
    {
        match value.build() {
            Ok(c) => {
                let mut b = self;
                b.file_writers.push(c);
                proof {
                    assert(b.file_writers@.drop_last() =~= self.file_writers@);
                }
                Ok(b)
            },
            Err(e) => Err(e),
        }
    }

    /// Sets the severity below which events are not recorded.
    pub fn log_level(self, value: Level) -> (r: LogsConfigBuilder)
        ensures
            r.log_level_set() == Some(value),
            self.same_except(&r, seq![false, false, false, true, false, false, false]),
    {
        let mut b = self;
        b.log_level = Some(value);
        b
    }

    /// Sets whether a background task flushes periodically.
    pub fn auto_flush(self, value: bool) -> (r: LogsConfigBuilder)
        ensures
            r.auto_flush_set() == Some(value),
            self.same_except(&r, seq![false, false, false, false, true, false, false]),
    {
        let mut b = self;
        b.auto_flush = Some(value);
        b
    }

    /// Sets whether the client flushes when it is closed.
    pub fn auto_flush_on_close(self, value: bool) -> (r: LogsConfigBuilder)
        ensures
            r.auto_flush_on_close_set() == Some(value),
            self.same_except(&r, seq![false, false, false, false, false, true, false]),
    {
        let mut b = self;
        b.auto_flush_on_close = Some(value);
        b
    }

    /// Sets the event filter.
    pub fn env_filter(self, value: EnvFilter) -> (r: LogsConfigBuilder)
        ensures
            r.env_filter_set() == Some(value),
            self.same_except(&r, seq![false, false, false, false, false, false, true]),
    {
        let mut b = self;
        b.env_filter = Some(value);
        b
    }

    /// Builds the configuration. Nothing is required: the caller identifier
    /// defaults to `free_log_rust_client`, the level to `Trace`, and both
    /// flush switches to on.
    pub fn build(self) -> (r: Result<LogsConfig, BuildLogsConfigError>)
        ensures
            r matches Ok(c) && {
                &&& c.user_agent@ == match self.user_agent_set() {
                    Some(u) => u,
                    None => default_user_agent(),
                }
                &&& c.api_writers@ == self.api_writers_set()
                &&& c.file_writers@ == self.file_writers_set()
                &&& c.log_level == match self.log_level_set() {
                    Some(l) => l,
                    None => Level::Trace,
                }
                &&& c.auto_flush == match self.auto_flush_set() {
                    Some(v) => v,
                    None => true,
                }
                &&& c.auto_flush_on_close == match self.auto_flush_on_close_set() {
                    Some(v) => v,
                    None => true,
                }
                &&& c.env_filter == self.env_filter_set()
            },
    {
        let LogsConfigBuilder {
            user_agent,
            api_writers,
            file_writers,
            log_level,
            auto_flush,
            auto_flush_on_close,
            env_filter,
        } = self;
        Ok(LogsConfig {
            user_agent: match user_agent {
                Some(u) => u,
                None => String::from_str("free_log_rust_client"),
            },
            api_writers,
            file_writers,
            log_level: match log_level {
                Some(l) => l,
                None => Level::Trace,
            },
            auto_flush: match auto_flush {
                Some(v) => v,
                None => true,
            },
            auto_flush_on_close: match auto_flush_on_close {
                Some(v) => v,
                None => true,
            },
            env_filter,
        })
    }
}

} // verus!
