use free_log_client::{
    ApiWriterConfig, BuildApiWriterConfigError, BuildFileWriterConfigError, EnvFilter,
    EnvFilterError, FileWriterConfig, FilterSource, Level, LogsConfig,
};

#[test]
fn api_writer_defaults() {
    let c = ApiWriterConfig::builder().api_url("http://x").build().unwrap();
    assert_eq!(c.api_url, "http://x");
    assert_eq!(c.user_agent, "free_log_rust_client");
    assert_eq!(c.log_level, Level::Trace);
}

#[test]
fn api_writer_settings() {
    let c = ApiWriterConfig::builder()
        .user_agent("me")
        .log_level(Level::Warn)
        .api_url("http://y")
        .build()
        .unwrap();
    assert_eq!(c.user_agent, "me");
    assert_eq!(c.log_level, Level::Warn);
}

#[test]
fn api_writer_requires_url() {
    match ApiWriterConfig::builder().user_agent("me").build() {
        Err(BuildApiWriterConfigError::MissingRequiredProperty(p)) => assert_eq!(p, "api_url"),
        Ok(_) => panic!("built without a url"),
    }
}

#[test]
fn file_writer_requires_path() {
    match FileWriterConfig::builder().log_level(Level::Info).build() {
        Err(BuildFileWriterConfigError::MissingRequiredProperty(p)) => assert_eq!(p, "path"),
        Ok(_) => panic!("built without a path"),
    }
    let c = FileWriterConfig::builder().file_path("/tmp/x.log").build().unwrap();
    assert_eq!(c.path, "/tmp/x.log");
    assert_eq!(c.log_level, Level::Trace);
}

#[test]
fn logs_config_defaults() {
    let c = LogsConfig::builder().build().unwrap();
    assert_eq!(c.user_agent, "free_log_rust_client");
    assert!(c.api_writers.is_empty());
    assert!(c.file_writers.is_empty());
    assert_eq!(c.log_level, Level::Trace);
    assert!(c.auto_flush);
    assert!(c.auto_flush_on_close);
    assert!(c.env_filter.is_none());
}

#[test]
fn logs_config_settings() {
    let c = LogsConfig::builder()
        .user_agent("svc")
        .with_api_writer(ApiWriterConfig::builder().api_url("http://a"))
        .unwrap()
        .with_file_writer(FileWriterConfig::builder().file_path("a.log").log_level(Level::Error))
        .unwrap()
        .log_level(Level::Info)
        .auto_flush(false)
        .auto_flush_on_close(false)
        .env_filter(EnvFilter::new("info"))
        .build()
        .unwrap();
    assert_eq!(c.user_agent, "svc");
    assert_eq!(c.api_writers.len(), 1);
    assert_eq!(c.api_writers[0].api_url, "http://a");
    assert_eq!(c.file_writers[0].log_level, Level::Error);
    assert_eq!(c.log_level, Level::Info);
    assert!(!c.auto_flush);
    assert!(!c.auto_flush_on_close);
    assert!(c.env_filter.is_some());
}

#[test]
fn logs_config_rejects_incomplete_writer() {
    assert!(LogsConfig::builder().with_api_writer(ApiWriterConfig::builder()).is_err());
    assert!(LogsConfig::builder().with_file_writer(FileWriterConfig::builder()).is_err());
}

#[test]
fn filter_sources() {
    match EnvFilter::new("debug").source() {
        Ok(FilterSource::Directives(d)) => assert_eq!(d, "debug"),
        other => panic!("{other:?}"),
    }
    match EnvFilter::from_env("MY_LOG").source() {
        Ok(FilterSource::Env { name, directives }) => {
            assert_eq!(name, "MY_LOG");
            assert!(directives.is_none());
        }
        other => panic!("{other:?}"),
    }
    match EnvFilter::from_default_env().source() {
        Ok(FilterSource::DefaultEnv { directives }) => assert!(directives.is_none()),
        other => panic!("{other:?}"),
    }
}

#[test]
fn filter_error_variant_exists() {
    let e = EnvFilterError::InvalidConfiguration;
    assert!(matches!(e, EnvFilterError::InvalidConfiguration));
}

#[test]
fn filter_parse_error_variant() {
    let e = "[".parse::<tracing_subscriber::filter::Directive>().unwrap_err();
    let err = EnvFilterError::Parse(e);
    assert!(matches!(err, EnvFilterError::Parse(_)));
}
