//! Settings of the controller process, read from its environment.
use vstd::prelude::*;

use crate::consumer_deployment::ConsumerConfig;

verus! {

/// Meilisearch address when `MEILISEARCH_URL` is unset.
pub const DEFAULT_MEILISEARCH_URL: &'static str = "http://localhost:30700";

/// Kafka bootstrap servers when `KAFKA_BOOTSTRAP_SERVERS` is unset.
pub const DEFAULT_KAFKA_BOOTSTRAP: &'static str = "my-cluster-kafka-bootstrap.kafka:9092";

/// Consumer image when `CONSUMER_IMAGE` is unset.
pub const DEFAULT_CONSUMER_IMAGE: &'static str = "search-controller:latest";

/// Where the controller finds Meilisearch and Kafka, and which consumer image it deploys.
pub struct ControllerSettings {
    pub meilisearch_url: String,
    pub kafka_bootstrap: String,
    pub consumer_image: String,
}

/// The text of an environment variable, or `default` when it is unset.
pub open spec fn value_or(value: Option<String>, default: Seq<char>) -> Seq<char> {
    match value {
        Some(v) => v@,
        None => default,
    }
}

fn text_or(value: Option<String>, default: &str) -> (s: String)
    ensures
        s@ == value_or(value, default@),
{
    match value {
        Some(v) => v,
        None => default.to_owned(),
    }
}

impl ControllerSettings {
    /// The settings given the values of `MEILISEARCH_URL`, `KAFKA_BOOTSTRAP_SERVERS` and
    /// `CONSUMER_IMAGE` (`None` when unset): each value, or its default.
    pub fn from_env_values(
        meilisearch_url: Option<String>,
        kafka_bootstrap: Option<String>,
        consumer_image: Option<String>,
    ) -> (s: ControllerSettings)
        ensures
            s.meilisearch_url@ == value_or(meilisearch_url, DEFAULT_MEILISEARCH_URL@),
            s.kafka_bootstrap@ == value_or(kafka_bootstrap, DEFAULT_KAFKA_BOOTSTRAP@),
            s.consumer_image@ == value_or(consumer_image, DEFAULT_CONSUMER_IMAGE@),
    {
        ControllerSettings {
            meilisearch_url: text_or(meilisearch_url, DEFAULT_MEILISEARCH_URL),
            kafka_bootstrap: text_or(kafka_bootstrap, DEFAULT_KAFKA_BOOTSTRAP),
            consumer_image: text_or(consumer_image, DEFAULT_CONSUMER_IMAGE),
        }
    }

    /// What the consumer Deployments are told: these settings.
    pub fn consumer_config(&self) -> (c: ConsumerConfig<'_>)
        ensures
            c.kafka_bootstrap@ == self.kafka_bootstrap@,
            c.meilisearch_url@ == self.meilisearch_url@,
            c.consumer_image@ == self.consumer_image@,
    {
        ConsumerConfig {
            kafka_bootstrap: self.kafka_bootstrap.as_str(),
            meilisearch_url: self.meilisearch_url.as_str(),
            consumer_image: self.consumer_image.as_str(),
        }
    }
}

} // verus!
