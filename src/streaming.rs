//! Streaming backends: their error taxonomy, the choice of backend from the
//! configuration, and the values each backend publishes with.
use vstd::prelude::*;
use crate::config::{KafkaConfig, KinesisConfig, PulsarConfig, StreamingConfig, StreamingServiceType};
use crate::params::string_views;
use crate::transformer::AnalyticsEvent;

verus! {

/// Failures of a streaming backend.
#[derive(Debug)]
pub enum StreamingError {
    /// The backend could not be reached or set up.
    ConnectionError(String),
    /// The event could not be encoded.
    SerializationError(String),
    /// The backend did not accept an event.
    SendError(String),
    /// The health probe failed.
    HealthCheckError(String),
    /// The selected backend has no settings.
    ConfigError(String),
}

/// The text of a streaming error.
pub open spec fn streaming_error_text(e: StreamingError) -> Seq<char> {
    match e {
        StreamingError::ConnectionError(m) => "Connection error: "@ + m@,
        StreamingError::SerializationError(m) => "Serialization error: "@ + m@,
        StreamingError::SendError(m) => "Send error: "@ + m@,
        StreamingError::HealthCheckError(m) => "Health check error: "@ + m@,
        StreamingError::ConfigError(m) => "Configuration error: "@ + m@,
    }
}

impl StreamingError {
    /// The error as a human-readable line.
    pub fn to_string(&self) -> (r: String)
        ensures
            r@ == streaming_error_text(*self),
    {
        let (mut s, m) = match self {
            StreamingError::ConnectionError(m) => ("Connection error: ".to_string(), m),
            StreamingError::SerializationError(m) => ("Serialization error: ".to_string(), m),
            StreamingError::SendError(m) => ("Send error: ".to_string(), m),
            StreamingError::HealthCheckError(m) => ("Health check error: ".to_string(), m),
            StreamingError::ConfigError(m) => ("Configuration error: ".to_string(), m),
        };
        s.append(m.as_str());
        s
    }
}

/// The settings of the one backend that a configuration selects.
#[derive(Debug)]
pub enum BackendSettings {
    Kafka(KafkaConfig),
    Kinesis(KinesisConfig),
    Pulsar(PulsarConfig),
}

/// The backend that `config` selects with its settings, or a configuration
/// error naming the backend whose settings are missing.
pub fn select_backend(config: StreamingConfig) -> (r: Result<BackendSettings, StreamingError>)
    ensures
        config.service_type == StreamingServiceType::Kafka ==> match config.kafka {
            Some(k) => r == Ok::<BackendSettings, StreamingError>(BackendSettings::Kafka(k)),
            None => r matches Err(StreamingError::ConfigError(m)) && m@
                == "Kafka configuration is missing"@,
        },
        config.service_type == StreamingServiceType::Kinesis ==> match config.kinesis {
            Some(k) => r == Ok::<BackendSettings, StreamingError>(BackendSettings::Kinesis(k)),
            None => r matches Err(StreamingError::ConfigError(m)) && m@
                == "Kinesis configuration is missing"@,
        },
        config.service_type == StreamingServiceType::Pulsar ==> match config.pulsar {
            Some(p) => r == Ok::<BackendSettings, StreamingError>(BackendSettings::Pulsar(p)),
            None => r matches Err(StreamingError::ConfigError(m)) && m@
                == "Pulsar configuration is missing"@,
        },
{
    match config.service_type {
        StreamingServiceType::Kafka => match config.kafka {
            Some(k) => Ok(BackendSettings::Kafka(k)),
            None => Err(StreamingError::ConfigError("Kafka configuration is missing".to_string())),
        },
        StreamingServiceType::Kinesis => match config.kinesis {
            Some(k) => Ok(BackendSettings::Kinesis(k)),
            None => Err(
                StreamingError::ConfigError("Kinesis configuration is missing".to_string()),
            ),
        },
        StreamingServiceType::Pulsar => match config.pulsar {
            Some(p) => Ok(BackendSettings::Pulsar(p)),
            None => Err(
                StreamingError::ConfigError("Pulsar configuration is missing".to_string()),
            ),
        },
    }
}

/// `parts` joined with `sep` between each two.
pub open spec fn joined(parts: Seq<Seq<char>>, sep: Seq<char>) -> Seq<char>
    decreases parts.len(),
{
    if parts.len() == 0 {
        Seq::empty()
    } else if parts.len() == 1 {
        parts[0]
    } else {
        joined(parts.drop_last(), sep) + sep + parts.last()
    }
}

/// The Kafka bootstrap server list: the broker addresses joined by commas.
pub fn broker_list(brokers: &Vec<String>) -> (r: String)
    ensures
        r@ == joined(string_views(brokers@), ","@),
{
    let ghost parts = string_views(brokers@);
    let mut out = String::new();
    let mut i: usize = 0;
    while i < brokers.len()
        invariant
            parts == string_views(brokers@),
            i <= brokers@.len(),
            out@ == joined(parts.subrange(0, i as int), ","@),
        decreases brokers@.len() - i,
    {
        proof {
            let pre = parts.subrange(0, i as int);
            let ext = parts.subrange(0, i + 1);
            assert(ext.drop_last() =~= pre);
            assert(ext.last() == brokers@[i as int]@);
            if i == 0 {
                assert(ext.len() == 1);
            }
        }
        if i > 0 {
            out.append(",");
        }
        out.append(brokers[i].as_str());
        proof {
            if i == 0 {
                assert(out@ =~= brokers@[0]@);
            }
        }
        i = i + 1;
    }
    proof {
        assert(parts.subrange(0, brokers@.len() as int) =~= parts);
    }
    out
}

/// The producer settings for Kafka, in the order they are applied.
pub open spec fn kafka_settings_model(brokers: Seq<Seq<char>>) -> Seq<(Seq<char>, Seq<char>)> {
    seq![
        ("bootstrap.servers"@, joined(brokers, ","@)),
        ("message.timeout.ms"@, "5000"@),
        ("queue.buffering.max.messages"@, "100000"@),
        ("queue.buffering.max.kbytes"@, "1048576"@),
        ("batch.num.messages"@, "10000"@),
    ]
}

pub open spec fn pair_views(v: Seq<(String, String)>) -> Seq<(Seq<char>, Seq<char>)> {
    v.map_values(|p: (String, String)| (p.0@, p.1@))
}

/// The settings a Kafka producer is created with: the broker list, a send
/// timeout, and the sizes of the producer's queue and batches.
pub fn kafka_producer_settings(brokers: &Vec<String>) -> (r: Vec<(String, String)>)
    ensures
        pair_views(r@) == kafka_settings_model(string_views(brokers@)),
{
    let mut r: Vec<(String, String)> = Vec::new();
    r.push(("bootstrap.servers".to_string(), broker_list(brokers)));
    r.push(("message.timeout.ms".to_string(), "5000".to_string()));
    r.push(("queue.buffering.max.messages".to_string(), "100000".to_string()));
    r.push(("queue.buffering.max.kbytes".to_string(), "1048576".to_string()));
    r.push(("batch.num.messages".to_string(), "10000".to_string()));
    assert(pair_views(r@) =~= kafka_settings_model(string_views(brokers@)));
    r
}

/// The Kafka message key of an event: its id, or empty without one.
pub fn kafka_message_key(event: &AnalyticsEvent) -> (r: String)
    ensures
        r@ == match event@.id {
            Some(id) => id,
            None => ""@,
        },
{
    match &event.id {
        Some(id) => id.clone(),
        None => "".to_string(),
    }
}

/// The Kinesis partition key of an event: its id, or "default" without one.
pub fn kinesis_partition_key(event: &AnalyticsEvent) -> (r: String)
    ensures
        r@ == match event@.id {
            Some(id) => id,
            None => "default"@,
        },
{
    match &event.id {
        Some(id) => id.clone(),
        None => "default".to_string(),
    }
}

} // verus!
