//! Process configuration values and their validation.
use vstd::prelude::*;
use crate::text::text_eq;

verus! {

/// Main configuration: server, streaming backend, location database, logging.
#[derive(Clone, Debug)]
pub struct Config {
    pub server: ServerConfig,
    pub streaming: StreamingConfig,
    pub geoip: GeoIpConfig,
    pub logging: LoggingConfig,
}

/// Bind address of the HTTP server.
#[derive(Clone, Debug)]
pub struct ServerConfig {
    pub host: String,
    pub port: u16,
}

/// The selected streaming backend and the settings of each backend.
#[derive(Clone, Debug)]
pub struct StreamingConfig {
    pub service_type: StreamingServiceType,
    pub kafka: Option<KafkaConfig>,
    pub kinesis: Option<KinesisConfig>,
    pub pulsar: Option<PulsarConfig>,
}

/// Kind of streaming backend.
#[derive(Clone, Copy, Debug, PartialEq, Eq, Structural)]
pub enum StreamingServiceType {
    Kafka,
    Kinesis,
    Pulsar,
}

/// Kafka brokers and topic.
#[derive(Clone, Debug)]
pub struct KafkaConfig {
    pub brokers: Vec<String>,
    pub topic: String,
}

/// Kinesis region and stream.
#[derive(Clone, Debug)]
pub struct KinesisConfig {
    pub region: String,
    pub stream_name: String,
}

/// Pulsar broker URL and topic.
#[derive(Clone, Debug)]
pub struct PulsarConfig {
    pub url: String,
    pub topic: String,
}

/// Location database file; empty disables location enrichment.
#[derive(Clone, Debug)]
pub struct GeoIpConfig {
    pub database_path: String,
}

/// Log level name.
#[derive(Clone, Debug)]
pub struct LoggingConfig {
    pub level: String,
}

/// Why a configuration could not be loaded.
#[derive(Debug)]
pub enum ConfigError {
    /// The file could not be read; holds the reason.
    FileNotFound(String),
    /// The file is not valid YAML for a configuration; holds the reason.
    InvalidYaml(String),
    /// A required value is missing or invalid.
    MissingFields(String),
}

impl ConfigError {
    /// The error as a human-readable line.
    pub fn to_string(&self) -> (r: String)
        ensures
            r@ == match self {
                ConfigError::FileNotFound(m) => "Configuration file not found: "@ + m@,
                ConfigError::InvalidYaml(m) => "Invalid YAML syntax: "@ + m@,
                ConfigError::MissingFields(m) => "Missing required fields: "@ + m@,
            },
    {
        let (mut s, m) = match self {
            ConfigError::FileNotFound(m) => ("Configuration file not found: ".to_string(), m),
            ConfigError::InvalidYaml(m) => ("Invalid YAML syntax: ".to_string(), m),
            ConfigError::MissingFields(m) => ("Missing required fields: ".to_string(), m),
        };
        s.append(m.as_str());
        s
    }
}

/// What `str::to_lowercase` makes of a string.
pub uninterp spec fn lowercase_of(s: Seq<char>) -> Seq<char>;

/// Relies on `str::to_lowercase`: the lowercase mapping of `s`, which depends
/// on the characters of `s` alone.
#[verifier::external_body]
fn to_lowercase(s: &str) -> (r: String)
    ensures
        r@ == lowercase_of(s@),
{
    s.to_lowercase()
}

/// The accepted log level names.
pub open spec fn is_log_level(s: Seq<char>) -> bool {
    s == "trace"@ || s == "debug"@ || s == "info"@ || s == "warn"@ || s == "error"@
}

/// Whether `level` is one of the accepted log level names, as written.
pub fn is_valid_log_level(level: &str) -> (r: bool)
    ensures
        r == is_log_level(level@),
{
    text_eq(level, "trace") || text_eq(level, "debug") || text_eq(level, "info") || text_eq(
        level,
        "warn",
    ) || text_eq(level, "error")
}

/// The first problem of `c` in the order it is checked, if any.
pub open spec fn config_problem(c: Config) -> Option<Seq<char>> {
    if c.server.host@.len() == 0 {
        Some("server.host is empty"@)
    } else if c.server.port == 0 {
        Some("server.port must be non-zero"@)
    } else if streaming_problem(c.streaming) is Some {
        streaming_problem(c.streaming)
    } else if !is_log_level(lowercase_of(c.logging.level@)) {
        Some(LOG_LEVEL_MESSAGE@)
    } else {
        None
    }
}

/// The problem of the settings of the selected streaming backend, if any.
pub open spec fn streaming_problem(s: StreamingConfig) -> Option<Seq<char>> {
    match s.service_type {
        StreamingServiceType::Kafka => match s.kafka {
            Some(k) => if k.brokers@.len() == 0 {
                Some("streaming.kafka.brokers is empty"@)
            } else if k.topic@.len() == 0 {
                Some("streaming.kafka.topic is empty"@)
            } else {
                None
            },
            None => Some(
                "streaming.kafka configuration is required when service_type is kafka"@,
            ),
        },
        StreamingServiceType::Kinesis => match s.kinesis {
            Some(k) => if k.region@.len() == 0 {
                Some("streaming.kinesis.region is empty"@)
            } else if k.stream_name@.len() == 0 {
                Some("streaming.kinesis.stream_name is empty"@)
            } else {
                None
            },
            None => Some(
                "streaming.kinesis configuration is required when service_type is kinesis"@,
            ),
        },
        StreamingServiceType::Pulsar => match s.pulsar {
            Some(p) => if p.url@.len() == 0 {
                Some("streaming.pulsar.url is empty"@)
            } else if p.topic@.len() == 0 {
                Some("streaming.pulsar.topic is empty"@)
            } else {
                None
            },
            None => Some(
                "streaming.pulsar configuration is required when service_type is pulsar"@,
            ),
        },
    }
}

/// Message for a log level outside the accepted names.
pub const LOG_LEVEL_MESSAGE: &'static str =
    "logging.level must be one of: [\"trace\", \"debug\", \"info\", \"warn\", \"error\"]";

fn streaming_check(s: &StreamingConfig) -> (r: Result<(), String>)
    ensures
        r is Ok <==> streaming_problem(*s) is None,
        r matches Err(m) ==> streaming_problem(*s) == Some(m@),
{
    match s.service_type {
        StreamingServiceType::Kafka => match &s.kafka {
            Some(k) => if k.brokers.len() == 0 {
                Err("streaming.kafka.brokers is empty".to_string())
            } else if k.topic.as_str().is_empty() {
                Err("streaming.kafka.topic is empty".to_string())
            } else {
                Ok(())
            },
            None => Err(
                "streaming.kafka configuration is required when service_type is kafka".to_string(),
            ),
        },
        StreamingServiceType::Kinesis => match &s.kinesis {
            Some(k) => if k.region.as_str().is_empty() {
                Err("streaming.kinesis.region is empty".to_string())
            } else if k.stream_name.as_str().is_empty() {
                Err("streaming.kinesis.stream_name is empty".to_string())
            } else {
                Ok(())
            },
            None => Err(
                "streaming.kinesis configuration is required when service_type is kinesis".to_string(),
            ),
        },
        StreamingServiceType::Pulsar => match &s.pulsar {
            Some(p) => if p.url.as_str().is_empty() {
                Err("streaming.pulsar.url is empty".to_string())
            } else if p.topic.as_str().is_empty() {
                Err("streaming.pulsar.topic is empty".to_string())
            } else {
                Ok(())
            },
            None => Err(
                "streaming.pulsar configuration is required when service_type is pulsar".to_string(),
            ),
        },
    }
}

/// Checks that the required values are present and valid; the error names the
/// first problem found.
pub fn validate_config(config: &Config) -> (r: Result<(), ConfigError>)
    ensures
        r is Ok <==> config_problem(*config) is None,
        r matches Err(e) ==> e matches ConfigError::MissingFields(m) && config_problem(*config)
            == Some(m@),
{
    if config.server.host.as_str().is_empty() {
        return Err(ConfigError::MissingFields("server.host is empty".to_string()));
    }
    if config.server.port == 0 {
        return Err(ConfigError::MissingFields("server.port must be non-zero".to_string()));
    }
    match streaming_check(&config.streaming) {
        Err(m) => {
            return Err(ConfigError::MissingFields(m));
        },
        Ok(()) => {},
    }
    let lowered = to_lowercase(config.logging.level.as_str());
    if !is_valid_log_level(lowered.as_str()) {
        return Err(ConfigError::MissingFields(LOG_LEVEL_MESSAGE.to_string()));
    }
    Ok(())
}

} // verus!
