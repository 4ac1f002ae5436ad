//! Verified core of the SearchIndex controller and of its Kafka helpers.

mod clock;
pub mod consumer_deployment;
pub mod controller;
pub mod crd;
pub mod ingest;
pub mod kafka;
pub mod meilisearch;
pub mod polling;
pub mod settings;
pub mod status;
pub mod text;

pub use crd::{
    Condition, ConnectorSpec, FieldSpec, IndexSpec, KafkaSpec, SearchIndex, SearchIndexSpec,
    SearchIndexStatus,
};
pub use kafka::config::{
    bootstrap_servers_from, DEFAULT_BOOTSTRAP_SERVERS, DEFAULT_CLUSTER_NAME, DEFAULT_KAFKA_NAMESPACE,
    DEFAULT_RETENTION_MS, DEFAULT_SEGMENT_BYTES,
};
pub use kafka::error::KafkaError;
pub use kafka::message::KafkaMessage;
pub use kafka::topic::{KafkaTopic, KafkaTopicCondition, KafkaTopicSpec, KafkaTopicStatus};
