//! Errors of the Kafka helpers.
use vstd::prelude::*;

use crate::text::{decimal, decimal_u64};

verus! {

/// What went wrong while talking to Kafka or to the Kubernetes API.
#[derive(Debug)]
pub enum KafkaError {
    /// The topic's custom resource did not report `Ready=True` in time (topic, seconds).
    TopicNotReady(String, u64),
    /// The broker did not report the topic's metadata in time (topic, seconds).
    MetadataNotReady(String, u64),
    /// The group coordinator did not answer in time (topic, seconds).
    CoordinatorNotReady(String, u64),
    /// A Kafka client could not be created.
    ClientCreation(String),
    /// A message could not be sent.
    SendFailed(String),
    /// Messages could not be received.
    ReceiveFailed(String),
    /// No message arrived in this many seconds.
    ReceiveTimeout(u64),
    /// The Kubernetes API refused a request; the error's text.
    KubeError(String),
    /// The Kafka client library reported an error; the error's text.
    RdKafka(String),
}

impl KafkaError {
    /// The text of the error.
    pub open spec fn text(&self) -> Seq<char> {
        match self {
            KafkaError::TopicNotReady(t, s) => "Topic '"@ + t@ + "' not ready after "@ + decimal(
                *s as nat,
            ) + "s (K8s CR status)"@,
            KafkaError::MetadataNotReady(t, s) => "Broker metadata not available for topic '"@ + t@
                + "' after "@ + decimal(*s as nat) + "s"@,
            KafkaError::CoordinatorNotReady(t, s) => "GroupCoordinator not ready for topic '"@ + t@
                + "' after "@ + decimal(*s as nat) + "s"@,
            KafkaError::ClientCreation(e) => "Failed to create Kafka client: "@ + e@,
            KafkaError::SendFailed(e) => "Failed to send message: "@ + e@,
            KafkaError::ReceiveFailed(e) => "Failed to receive message: "@ + e@,
            KafkaError::ReceiveTimeout(s) => "Timeout waiting for message after "@ + decimal(
                *s as nat,
            ) + "s"@,
            KafkaError::KubeError(e) => "Kubernetes API error: "@ + e@,
            KafkaError::RdKafka(e) => "rdkafka error: "@ + e@,
        }
    }

    /// Renders the error as text.
    pub fn message(&self) -> (s: String)
        ensures
            s@ == self.text(),
    {
        match self {
            KafkaError::TopicNotReady(t, s) => {
                let secs = decimal_u64(*s);
                "Topic '".to_owned().concat(t.as_str()).concat("' not ready after ").concat(
                    secs.as_str(),
                ).concat("s (K8s CR status)")
            },
            KafkaError::MetadataNotReady(t, s) => {
                let secs = decimal_u64(*s);
                "Broker metadata not available for topic '".to_owned().concat(t.as_str()).concat(
                    "' after ",
                ).concat(secs.as_str()).concat("s")
            },
            KafkaError::CoordinatorNotReady(t, s) => {
                let secs = decimal_u64(*s);
                "GroupCoordinator not ready for topic '".to_owned().concat(t.as_str()).concat(
                    "' after ",
                ).concat(secs.as_str()).concat("s")
            },
            KafkaError::ClientCreation(e) => "Failed to create Kafka client: ".to_owned().concat(
                e.as_str(),
            ),
            KafkaError::SendFailed(e) => "Failed to send message: ".to_owned().concat(e.as_str()),
            KafkaError::ReceiveFailed(e) => "Failed to receive message: ".to_owned().concat(
                e.as_str(),
            ),
            KafkaError::ReceiveTimeout(s) => {
                let secs = decimal_u64(*s);
                "Timeout waiting for message after ".to_owned().concat(secs.as_str()).concat("s")
            },
            KafkaError::KubeError(e) => "Kubernetes API error: ".to_owned().concat(e.as_str()),
            KafkaError::RdKafka(e) => "rdkafka error: ".to_owned().concat(e.as_str()),
        }
    }
}

} // verus!
