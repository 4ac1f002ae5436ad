//! The Deployment that runs the Kafka-to-Meilisearch consumer of a `SearchIndex`.
use vstd::prelude::*;

use crate::crd::{ObjectMeta, SearchIndex};
use crate::text::{
    canonical_digits, decimal, decimal_u64, decimal_value, distinct_keys, lemma_decimal_reads_back,
    KeyValue,
};

verus! {

/// Where the consumer finds Kafka, Meilisearch and its own image.
pub struct ConsumerConfig<'a> {
    pub kafka_bootstrap: &'a str,
    pub meilisearch_url: &'a str,
    pub consumer_image: &'a str,
}

/// Points from an owned object to its owner.
pub struct OwnerReference {
    pub api_version: String,
    pub kind: String,
    pub name: String,
    pub uid: String,
    pub controller: bool,
    pub block_owner_deletion: bool,
}

/// The parts of the consumer Deployment that the controller decides.
pub struct ConsumerDeployment {
    pub name: String,
    pub namespace: String,
    pub owner: OwnerReference,
    /// Labels of the Deployment itself.
    pub labels: Vec<KeyValue>,
    /// Labels that the Deployment selects its pods by.
    pub selector_labels: Vec<KeyValue>,
    /// Labels of the pod template.
    pub pod_labels: Vec<KeyValue>,
    pub replicas: i32,
    pub container_name: String,
    pub image: String,
    pub image_pull_policy: String,
    pub command: Vec<String>,
    pub env: Vec<KeyValue>,
}

/// `<name>-consumer`: the Deployment's name, which is also the consumer group id.
pub open spec fn consumer_name(si: SearchIndex) -> Seq<char> {
    si.metadata.any_name() + "-consumer"@
}

/// Labels of the Deployment and of its pods.
pub open spec fn consumer_labels(si: SearchIndex) -> Seq<(Seq<char>, Seq<char>)> {
    seq![("app"@, "search-consumer"@), ("stratum.dev/search-index"@, si.metadata.any_name())]
}

/// The labels of a consumer have distinct keys, as a label map requires.
pub proof fn lemma_consumer_labels_distinct(si: SearchIndex)
    ensures
        distinct_keys(consumer_labels(si)),
{
    reveal_strlit("app");
    reveal_strlit("stratum.dev/search-index");
    assert("app"@.len() != "stratum.dev/search-index"@.len());
}

/// The environment of the consumer container, in order.
pub open spec fn consumer_env(
    si: SearchIndex,
    topic_name: Seq<char>,
    index_name: Seq<char>,
    config: ConsumerConfig,
) -> Seq<(Seq<char>, Seq<char>)> {
    seq![
        ("KAFKA_TOPIC"@, topic_name),
        ("MEILISEARCH_INDEX"@, index_name),
        ("KAFKA_BOOTSTRAP_SERVERS"@, config.kafka_bootstrap@),
        ("MEILISEARCH_URL"@, config.meilisearch_url@),
        ("BATCH_SIZE"@, decimal(si.spec.connector.batch_size as nat)),
        ("BATCH_TIMEOUT_MS"@, decimal(si.spec.connector.batch_timeout_ms as nat)),
        ("KAFKA_GROUP_ID"@, consumer_name(si)),
    ]
}

/// `pairs` has an entry for `key`, and every entry for `key` has that value.
pub open spec fn gives(pairs: Seq<(Seq<char>, Seq<char>)>, key: Seq<char>, value: Seq<char>) -> bool {
    &&& exists|i: int| 0 <= i < pairs.len() && #[trigger] pairs[i].0 == key
    &&& forall|i: int| 0 <= i < pairs.len() && #[trigger] pairs[i].0 == key ==> pairs[i].1 == value
}

/// The consumer's environment names each variable once and tells it the topic, the index, where
/// Kafka and Meilisearch are, its consumer group (the Deployment's name), and the spec's batch
/// size and batch timeout, each written in decimal digits that read back as the spec's number.
pub proof fn lemma_consumer_env_settings(
    si: SearchIndex,
    topic_name: Seq<char>,
    index_name: Seq<char>,
    config: ConsumerConfig,
)
    ensures
        distinct_keys(consumer_env(si, topic_name, index_name, config)),
        gives(consumer_env(si, topic_name, index_name, config), "KAFKA_TOPIC"@, topic_name),
        gives(consumer_env(si, topic_name, index_name, config), "MEILISEARCH_INDEX"@, index_name),
        gives(
            consumer_env(si, topic_name, index_name, config),
            "KAFKA_BOOTSTRAP_SERVERS"@,
            config.kafka_bootstrap@,
        ),
        gives(
            consumer_env(si, topic_name, index_name, config),
            "MEILISEARCH_URL"@,
            config.meilisearch_url@,
        ),
        gives(consumer_env(si, topic_name, index_name, config), "KAFKA_GROUP_ID"@, consumer_name(si)),
        forall|i: int|
            0 <= i < consumer_env(si, topic_name, index_name, config).len() && #[trigger] consumer_env(
                si,
                topic_name,
                index_name,
                config,
            )[i].0 == "BATCH_SIZE"@ ==> canonical_digits(
                consumer_env(si, topic_name, index_name, config)[i].1,
            ) && decimal_value(consumer_env(si, topic_name, index_name, config)[i].1)
                == si.spec.connector.batch_size,
        forall|i: int|
            0 <= i < consumer_env(si, topic_name, index_name, config).len() && #[trigger] consumer_env(
                si,
                topic_name,
                index_name,
                config,
            )[i].0 == "BATCH_TIMEOUT_MS"@ ==> canonical_digits(
                consumer_env(si, topic_name, index_name, config)[i].1,
            ) && decimal_value(consumer_env(si, topic_name, index_name, config)[i].1)
                == si.spec.connector.batch_timeout_ms,
        gives(
            consumer_env(si, topic_name, index_name, config),
            "BATCH_SIZE"@,
            decimal(si.spec.connector.batch_size as nat),
        ),
        gives(
            consumer_env(si, topic_name, index_name, config),
            "BATCH_TIMEOUT_MS"@,
            decimal(si.spec.connector.batch_timeout_ms as nat),
        ),
{
    let env = consumer_env(si, topic_name, index_name, config);
    reveal_strlit("KAFKA_TOPIC");
    reveal_strlit("MEILISEARCH_INDEX");
    reveal_strlit("KAFKA_BOOTSTRAP_SERVERS");
    reveal_strlit("MEILISEARCH_URL");
    reveal_strlit("BATCH_SIZE");
    reveal_strlit("BATCH_TIMEOUT_MS");
    reveal_strlit("KAFKA_GROUP_ID");
    lemma_decimal_reads_back(si.spec.connector.batch_size as nat);
    lemma_decimal_reads_back(si.spec.connector.batch_timeout_ms as nat);
    assert(env.len() == 7);
    assert forall|i: int| 0 <= i < 7 implies #[trigger] env[i].0.len() == seq![11int, 17, 23, 15, 10, 16, 14][i] by {}
    assert(env[0].0 == "KAFKA_TOPIC"@);
    assert(env[1].0 == "MEILISEARCH_INDEX"@);
    assert(env[2].0 == "KAFKA_BOOTSTRAP_SERVERS"@);
    assert(env[3].0 == "MEILISEARCH_URL"@);
    assert(env[4].0 == "BATCH_SIZE"@);
    assert(env[5].0 == "BATCH_TIMEOUT_MS"@);
    assert(env[6].0 == "KAFKA_GROUP_ID"@);
}

/// Name of the consumer Deployment of `search_index`.
pub fn consumer_deployment_name(search_index: &SearchIndex) -> (s: String)
    ensures
        s@ == consumer_name(*search_index),
{
    search_index.name_any().concat("-consumer")
}

fn consumer_labels_of(search_index: &SearchIndex) -> (labels: Vec<KeyValue>)
    ensures
        labels.deep_view() == consumer_labels(*search_index),
{
    let mut labels: Vec<KeyValue> = Vec::new();
    labels.push(KeyValue::new("app", "search-consumer"));
    let owner = search_index.name_any();
    labels.push(KeyValue::new("stratum.dev/search-index", owner.as_str()));
    assert(labels.deep_view() =~= consumer_labels(*search_index));
    labels
}

/// The consumer Deployment of `search_index` in `namespace`: owned by the `SearchIndex` (as its
/// controller), one replica of the consumer image, and told through its environment which topic
/// to read, which index to fill, where both live and how to batch.
pub fn consumer_deployment(
    search_index: &SearchIndex,
    namespace: &str,
    topic_name: &str,
    index_name: &str,
    config: &ConsumerConfig,
) -> (d: ConsumerDeployment)
    ensures
        d.name@ == consumer_name(*search_index),
        d.namespace@ == namespace@,
        d.owner.api_version@ == "stratum.dev/v1"@,
        d.owner.kind@ == "SearchIndex"@,
        d.owner.name@ == search_index.metadata.any_name(),
        d.owner.uid@ == ObjectMeta::text_or_empty(search_index.metadata.uid),
        d.owner.controller,
        d.owner.block_owner_deletion,
        d.labels.deep_view() == consumer_labels(*search_index),
        distinct_keys(d.labels.deep_view()),
        d.selector_labels.deep_view() == consumer_labels(*search_index),
        d.pod_labels.deep_view() == consumer_labels(*search_index),
        d.replicas == 1,
        d.container_name@ == "consumer"@,
        d.image@ == config.consumer_image@,
        d.image_pull_policy@ == "IfNotPresent"@,
        d.command.deep_view() == seq!["/usr/local/bin/consumer"@],
        d.env.deep_view() == consumer_env(*search_index, topic_name@, index_name@, *config),
        distinct_keys(d.env.deep_view()),
{
    proof {
        lemma_consumer_env_settings(*search_index, topic_name@, index_name@, *config);
    }
    let name = consumer_deployment_name(search_index);
    let owner = OwnerReference {
        api_version: "stratum.dev/v1".to_owned(),
        kind: "SearchIndex".to_owned(),
        name: search_index.name_any(),
        uid: search_index.uid_or_default(),
        controller: true,
        block_owner_deletion: true,
    };
    let mut command: Vec<String> = Vec::new();
    command.push("/usr/local/bin/consumer".to_owned());
    assert(command.deep_view() =~= seq!["/usr/local/bin/consumer"@]);

    let batch_size = decimal_u64(search_index.spec.connector.batch_size as u64);
    let batch_timeout = decimal_u64(search_index.spec.connector.batch_timeout_ms);
    let mut env: Vec<KeyValue> = Vec::new();
    env.push(KeyValue::new("KAFKA_TOPIC", topic_name));
    env.push(KeyValue::new("MEILISEARCH_INDEX", index_name));
    env.push(KeyValue::new("KAFKA_BOOTSTRAP_SERVERS", config.kafka_bootstrap));
    env.push(KeyValue::new("MEILISEARCH_URL", config.meilisearch_url));
    env.push(KeyValue::new("BATCH_SIZE", batch_size.as_str()));
    env.push(KeyValue::new("BATCH_TIMEOUT_MS", batch_timeout.as_str()));
    env.push(KeyValue::new("KAFKA_GROUP_ID", name.as_str()));
    assert(env.deep_view() =~= consumer_env(*search_index, topic_name@, index_name@, *config));

    proof {
        lemma_consumer_labels_distinct(*search_index);
    }
    ConsumerDeployment {
        name,
        namespace: namespace.to_owned(),
        owner,
        labels: consumer_labels_of(search_index),
        selector_labels: consumer_labels_of(search_index),
        pod_labels: consumer_labels_of(search_index),
        replicas: 1,
        container_name: "consumer".to_owned(),
        image: config.consumer_image.to_owned(),
        image_pull_policy: "IfNotPresent".to_owned(),
        command,
        env,
    }
}

} // verus!
