use search_controller::controller::{search_index_index_request, search_index_topic};
use search_controller::consumer_deployment::{
    consumer_deployment, consumer_deployment_name, ConsumerConfig,
};
use search_controller::crd::ObjectMeta;
use search_controller::settings::ControllerSettings;
use search_controller::{ConnectorSpec, IndexSpec, KafkaSpec, SearchIndex, SearchIndexSpec};

fn products() -> SearchIndex {
    SearchIndex {
        metadata: ObjectMeta {
            name: Some("products".to_string()),
            generate_name: None,
            namespace: Some("shop".to_string()),
            uid: Some("0b1c".to_string()),
            generation: Some(1),
        },
        spec: SearchIndexSpec {
            kafka: KafkaSpec::default(),
            connector: ConnectorSpec { batch_size: 250, batch_timeout_ms: 1500 },
            index: IndexSpec { fields: vec![], primary_key: None },
        },
        status: None,
    }
}

fn pairs(v: &[search_controller::text::KeyValue]) -> Vec<(String, String)> {
    v.iter().map(|kv| (kv.key.clone(), kv.value.clone())).collect()
}

#[test]
fn deployment_name() {
    assert_eq!(consumer_deployment_name(&products()), "products-consumer");
}

#[test]
fn deployment_of_products() {
    let config = ConsumerConfig {
        kafka_bootstrap: "kafka:9092",
        meilisearch_url: "http://meili:7700",
        consumer_image: "search-controller:latest",
    };
    let d = consumer_deployment(&products(), "shop", "shop-products-ingest", "products", &config);
    assert_eq!(d.name, "products-consumer");
    assert_eq!(d.namespace, "shop");
    assert_eq!(d.owner.api_version, "stratum.dev/v1");
    assert_eq!(d.owner.kind, "SearchIndex");
    assert_eq!(d.owner.name, "products");
    assert_eq!(d.owner.uid, "0b1c");
    assert!(d.owner.controller);
    assert!(d.owner.block_owner_deletion);
    let labels = vec![
        ("app".to_string(), "search-consumer".to_string()),
        ("stratum.dev/search-index".to_string(), "products".to_string()),
    ];
    assert_eq!(pairs(&d.labels), labels);
    assert_eq!(pairs(&d.selector_labels), labels);
    assert_eq!(pairs(&d.pod_labels), labels);
    assert_eq!(d.replicas, 1);
    assert_eq!(d.container_name, "consumer");
    assert_eq!(d.image, "search-controller:latest");
    assert_eq!(d.image_pull_policy, "IfNotPresent");
    assert_eq!(d.command, vec!["/usr/local/bin/consumer"]);
    let env: Vec<(String, String)> = vec![
        ("KAFKA_TOPIC", "shop-products-ingest"),
        ("MEILISEARCH_INDEX", "products"),
        ("KAFKA_BOOTSTRAP_SERVERS", "kafka:9092"),
        ("MEILISEARCH_URL", "http://meili:7700"),
        ("BATCH_SIZE", "250"),
        ("BATCH_TIMEOUT_MS", "1500"),
        ("KAFKA_GROUP_ID", "products-consumer"),
    ]
    .into_iter()
    .map(|(k, v)| (k.to_string(), v.to_string()))
    .collect();
    assert_eq!(pairs(&d.env), env);
}

#[test]
fn deployment_without_uid_has_empty_owner_uid() {
    let mut si = products();
    si.metadata.uid = None;
    let settings = ControllerSettings::from_env_values(None, None, None);
    let d = consumer_deployment(&si, "shop", "t", "i", &settings.consumer_config());
    assert_eq!(d.owner.uid, "");
    assert_eq!(d.image, "search-controller:latest");
    assert_eq!(pairs(&d.env)[2].1, "my-cluster-kafka-bootstrap.kafka:9092");
    assert_eq!(pairs(&d.env)[3].1, "http://localhost:30700");
}

#[test]
fn settings_prefer_environment_values() {
    let s = ControllerSettings::from_env_values(
        Some("http://m".to_string()),
        Some("k:1".to_string()),
        Some("img:2".to_string()),
    );
    assert_eq!(s.meilisearch_url, "http://m");
    assert_eq!(s.kafka_bootstrap, "k:1");
    assert_eq!(s.consumer_image, "img:2");
}

#[test]
fn topic_and_index_requests_follow_the_spec() {
    let mut kafka = KafkaSpec::default();
    kafka.partitions = 3;
    kafka.replicas = 2;
    let t = search_index_topic(&kafka, "shop-products-ingest");
    assert_eq!(t.metadata.name.as_deref(), Some("shop-products-ingest"));
    assert_eq!(t.metadata.namespace.as_deref(), Some("kafka"));
    assert_eq!(pairs(t.metadata.labels.as_ref().unwrap()), vec![("strimzi.io/cluster".to_string(), "my-cluster".to_string())]);
    assert_eq!((t.spec.partitions, t.spec.replicas), (3, 2));
    assert_eq!(
        t.spec.config.as_deref(),
        Some(r#"{"retention.ms":"7200000","segment.bytes":"1073741824"}"#)
    );
    kafka.cluster_name = Some("prod".to_string());
    kafka.retention_ms = Some(-1);
    let t = search_index_topic(&kafka, "x");
    assert_eq!(pairs(t.metadata.labels.as_ref().unwrap())[0].1, "prod");
    assert_eq!(t.spec.config.as_deref(), Some(r#"{"retention.ms":"-1","segment.bytes":"1073741824"}"#));
    kafka.retention_ms = Some(86400000);
    let t = search_index_topic(&kafka, "x");
    assert_eq!(t.spec.config.as_deref(), Some(r#"{"retention.ms":"86400000","segment.bytes":"1073741824"}"#));

    let mut index = IndexSpec { fields: vec![], primary_key: None };
    let r = search_index_index_request(&index, "products");
    assert_eq!(r.uid, "products");
    assert_eq!(r.primary_key.as_deref(), Some("id"));
    index.primary_key = Some("sku".to_string());
    assert_eq!(search_index_index_request(&index, "products").primary_key.as_deref(), Some("sku"));
}
