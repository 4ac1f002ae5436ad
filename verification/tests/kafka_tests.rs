use search_controller::kafka::client_config::{
    consumer_settings, coordinator_probe_settings, metadata_probe_settings, producer_settings,
};
use search_controller::kafka::readiness::{
    coordinator_observation, default_readiness_options, metadata_observation, receive_observation,
    ReadinessLayer, ReadinessOptions, ReceiveOutcome, TopicReport,
    DEFAULT_LAYER_ATTEMPTS, RECEIVE_ATTEMPTS, RECEIVE_TIMEOUT_SECS,
};
use search_controller::kafka::topic::{
    default_topic_config, kafka_topic, kafka_topic_with_options, topic_resource_observation,
    TopicMetadata,
};
use search_controller::polling::PollObservation;
use search_controller::text::KeyValue;
use search_controller::{
    bootstrap_servers_from, KafkaError, KafkaMessage, KafkaTopic, KafkaTopicCondition,
    KafkaTopicSpec, KafkaTopicStatus, DEFAULT_BOOTSTRAP_SERVERS,
};

fn pairs(v: &[KeyValue]) -> Vec<(String, String)> {
    v.iter().map(|kv| (kv.key.clone(), kv.value.clone())).collect()
}

fn owned(v: &[(&str, &str)]) -> Vec<(String, String)> {
    v.iter().map(|(k, v)| (k.to_string(), v.to_string())).collect()
}

#[test]
fn bootstrap_servers_default_and_override() {
    assert_eq!(bootstrap_servers_from(None), "localhost:30092");
    assert_eq!(DEFAULT_BOOTSTRAP_SERVERS, "localhost:30092");
    assert_eq!(bootstrap_servers_from(Some("broker:9092".to_string())), "broker:9092");
}

#[test]
fn client_settings() {
    assert_eq!(
        pairs(&consumer_settings("localhost:30092", "test-group")),
        owned(&[
            ("bootstrap.servers", "localhost:30092"),
            ("group.id", "test-group"),
            ("auto.offset.reset", "earliest"),
            ("enable.auto.commit", "false"),
            ("reconnect.backoff.ms", "50"),
            ("reconnect.backoff.max.ms", "1000"),
        ])
    );
    assert_eq!(
        pairs(&producer_settings("b:1")),
        owned(&[("bootstrap.servers", "b:1"), ("message.timeout.ms", "5000")])
    );
    assert_eq!(
        pairs(&metadata_probe_settings("b:1")),
        owned(&[("bootstrap.servers", "b:1"), ("group.id", "metadata-checker")])
    );
    assert_eq!(
        pairs(&coordinator_probe_settings("b:1")),
        owned(&[
            ("bootstrap.servers", "b:1"),
            ("group.id", "coordinator-checker"),
            ("session.timeout.ms", "6000"),
            ("auto.offset.reset", "earliest"),
            ("reconnect.backoff.ms", "50"),
            ("reconnect.backoff.max.ms", "1000"),
        ])
    );
}

#[test]
fn kafka_error_messages() {
    assert_eq!(
        KafkaError::TopicNotReady("messages".to_string(), 30).message(),
        "Topic 'messages' not ready after 30s (K8s CR status)"
    );
    assert_eq!(
        KafkaError::MetadataNotReady("messages".to_string(), 30).message(),
        "Broker metadata not available for topic 'messages' after 30s"
    );
    assert_eq!(
        KafkaError::CoordinatorNotReady("m".to_string(), 5).message(),
        "GroupCoordinator not ready for topic 'm' after 5s"
    );
    assert_eq!(
        KafkaError::ClientCreation("x".to_string()).message(),
        "Failed to create Kafka client: x"
    );
    assert_eq!(KafkaError::SendFailed("x".to_string()).message(), "Failed to send message: x");
    assert_eq!(
        KafkaError::ReceiveFailed("x".to_string()).message(),
        "Failed to receive message: x"
    );
    assert_eq!(KafkaError::ReceiveTimeout(60).message(), "Timeout waiting for message after 60s");
    assert_eq!(KafkaError::KubeError("nf".to_string()).message(), "Kubernetes API error: nf");
    assert_eq!(KafkaError::RdKafka("e".to_string()).message(), "rdkafka error: e");
}

#[test]
fn message_from_bytes() {
    let m = KafkaMessage::from_bytes(Some(b"test-key"), Some("Hello from Rust!".as_bytes()));
    assert_eq!(m.key(), Some("test-key"));
    assert_eq!(m.payload(), Some("Hello from Rust!"));
}

#[test]
fn message_drops_missing_or_invalid_text() {
    let m = KafkaMessage::from_bytes(None, Some(&[0xff, 0xfe]));
    assert_eq!(m.key(), None);
    assert_eq!(m.payload(), None);
    let m = KafkaMessage::from_bytes(Some("clé".as_bytes()), Some(b""));
    assert_eq!(m.key(), Some("clé"));
    assert_eq!(m.payload(), Some(""));
}

#[test]
fn topic_with_defaults() {
    let t = kafka_topic("messages", 1, 1);
    assert_eq!(t.metadata.name.as_deref(), Some("messages"));
    assert_eq!(t.metadata.namespace.as_deref(), Some("kafka"));
    assert_eq!(
        pairs(t.metadata.labels.as_ref().unwrap()),
        owned(&[("strimzi.io/cluster", "my-cluster")])
    );
    assert_eq!(t.spec.partitions, 1);
    assert_eq!(t.spec.replicas, 1);
    assert_eq!(
        t.spec.config.as_deref(),
        Some(r#"{"retention.ms":"7200000","segment.bytes":"1073741824"}"#)
    );
    assert!(t.status.is_none());
    assert_eq!(Some(default_topic_config()), t.spec.config);
    let parsed: serde_json::Value = serde_json::from_str(t.spec.config.as_ref().unwrap()).unwrap();
    assert_eq!(parsed["retention.ms"], "7200000");
    assert_eq!(parsed["segment.bytes"], "1073741824");
}

#[test]
fn topic_with_options() {
    let config = r#"{"retention.ms":1000}"#.to_string();
    let t = kafka_topic_with_options("orders", 3, 2, "prod", Some(config));
    assert_eq!(pairs(t.metadata.labels.as_ref().unwrap()), owned(&[("strimzi.io/cluster", "prod")]));
    assert_eq!(t.spec.partitions, 3);
    assert_eq!(t.spec.replicas, 2);
    assert_eq!(t.spec.config.as_deref(), Some(r#"{"retention.ms":1000}"#));
}

fn topic_with(conditions: Option<Vec<(&str, &str)>>) -> KafkaTopic {
    KafkaTopic {
        metadata: TopicMetadata { name: Some("m".to_string()), namespace: None, labels: None },
        spec: KafkaTopicSpec { partitions: 1, replicas: 1, config: None },
        status: Some(KafkaTopicStatus {
            conditions: conditions.map(|cs| {
                cs.into_iter()
                    .map(|(t, s)| KafkaTopicCondition { type_: t.to_string(), status: s.to_string() })
                    .collect()
            }),
        }),
    }
}

#[test]
fn topic_readiness() {
    assert!(topic_with(Some(vec![("Ready", "True")])).is_ready());
    assert!(!topic_with(Some(vec![("Ready", "False")])).is_ready());
    assert!(!topic_with(None).is_ready());
    let mut t = topic_with(None);
    t.status = None;
    assert!(!t.is_ready());
    let ready = topic_with(Some(vec![("Warning", "True"), ("Ready", "True")]));
    assert!(matches!(topic_resource_observation(Some(&ready)), PollObservation::Ready));
    let waiting = topic_with(Some(vec![("Ready", "Unknown")]));
    assert!(matches!(
        topic_resource_observation(Some(&waiting)),
        PollObservation::Pending { pause_ms: 1000 }
    ));
    assert!(matches!(topic_resource_observation(None), PollObservation::Pending { pause_ms: 1000 }));
}

#[test]
fn readiness_observations() {
    let report = |name: &str, has_error: bool| TopicReport { name: name.to_string(), has_error };
    assert!(matches!(
        metadata_observation("m", Some(&vec![report("m", false)])),
        PollObservation::Ready
    ));
    assert!(matches!(
        metadata_observation("m", Some(&vec![report("m", true)])),
        PollObservation::Pending { pause_ms: 1000 }
    ));
    assert!(matches!(
        metadata_observation("m", Some(&vec![report("other", false)])),
        PollObservation::Pending { pause_ms: 1000 }
    ));
    assert!(matches!(
        metadata_observation("m", Some(&vec![])),
        PollObservation::Pending { pause_ms: 1000 }
    ));
    assert!(matches!(metadata_observation("m", None), PollObservation::Pending { pause_ms: 1000 }));
    assert!(matches!(coordinator_observation(ReceiveOutcome::Message), PollObservation::Ready));
    assert!(matches!(coordinator_observation(ReceiveOutcome::Timeout), PollObservation::Ready));
    assert!(matches!(
        coordinator_observation(ReceiveOutcome::Error),
        PollObservation::Pending { pause_ms: 1000 }
    ));
    assert!(matches!(receive_observation(ReceiveOutcome::Message), PollObservation::Ready));
    assert!(matches!(
        receive_observation(ReceiveOutcome::Error),
        PollObservation::Pending { pause_ms: 1000 }
    ));
    assert!(matches!(
        receive_observation(ReceiveOutcome::Timeout),
        PollObservation::Pending { pause_ms: 0 }
    ));
    assert_eq!(DEFAULT_LAYER_ATTEMPTS, 30);
    assert_eq!(RECEIVE_ATTEMPTS, 30);
    assert_eq!(RECEIVE_TIMEOUT_SECS, 60);
}

#[test]
fn readiness_layers_in_order() {
    let options = ReadinessOptions {
        bootstrap_servers: "b:1".to_string(),
        k8s_timeout_secs: 5,
        metadata_timeout_secs: 6,
        coordinator_timeout_secs: 7,
    };
    let mut layer = ReadinessLayer::first();
    let mut limits = Vec::new();
    while !layer.is_finished() {
        limits.push(layer.attempt_limit(&options));
        layer = layer.advance(true);
    }
    assert_eq!(limits, vec![5, 6, 7]);
    assert!(matches!(layer, ReadinessLayer::Complete));
    assert_eq!(layer.attempt_limit(&options), 0);
}

#[test]
fn readiness_stops_at_the_first_failing_layer() {
    let layer = ReadinessLayer::first().advance(true);
    assert!(matches!(layer, ReadinessLayer::BrokerMetadata));
    let failed = layer.advance(false);
    assert!(matches!(failed, ReadinessLayer::Failed));
    assert!(failed.is_finished());
    assert!(matches!(failed.advance(true), ReadinessLayer::Failed));
}

#[test]
fn default_readiness_uses_thirty_seconds_per_layer() {
    let o = default_readiness_options(None);
    assert_eq!(o.bootstrap_servers, "localhost:30092");
    assert_eq!((o.k8s_timeout_secs, o.metadata_timeout_secs, o.coordinator_timeout_secs), (30, 30, 30));
    let o = default_readiness_options(Some("k:9".to_string()));
    assert_eq!(o.bootstrap_servers, "k:9");
}
