//! The Strimzi `KafkaTopic` custom resource (group `kafka.strimzi.io`, version `v1beta2`).
use vstd::prelude::*;

use crate::kafka::config::{
    DEFAULT_CLUSTER_NAME, DEFAULT_KAFKA_NAMESPACE, DEFAULT_RETENTION_MS, DEFAULT_SEGMENT_BYTES,
};
use crate::polling::PollObservation;
use crate::text::KeyValue;

verus! {

/// Pause between two readiness checks, in milliseconds.
pub const READINESS_PAUSE_MS: u64 = 1000;

/// The metadata of a topic that the helpers set or read.
pub struct TopicMetadata {
    pub name: Option<String>,
    pub namespace: Option<String>,
    pub labels: Option<Vec<KeyValue>>,
}

/// The desired state of a topic.
pub struct KafkaTopicSpec {
    pub partitions: i32,
    pub replicas: i32,
    /// Topic configuration, such as `retention.ms`, as JSON text.
    pub config: Option<String>,
}

/// One entry of a topic's `status.conditions`.
pub struct KafkaTopicCondition {
    pub type_: String,
    pub status: String,
}

impl View for KafkaTopicCondition {
    type V = (Seq<char>, Seq<char>);

    open spec fn view(&self) -> (Seq<char>, Seq<char>) {
        (self.type_@, self.status@)
    }
}

impl DeepView for KafkaTopicCondition {
    type V = (Seq<char>, Seq<char>);

    open spec fn deep_view(&self) -> (Seq<char>, Seq<char>) {
        self@
    }
}

/// The observed state of a topic.
pub struct KafkaTopicStatus {
    pub conditions: Option<Vec<KafkaTopicCondition>>,
}

/// A Strimzi topic.
pub struct KafkaTopic {
    pub metadata: TopicMetadata,
    pub spec: KafkaTopicSpec,
    pub status: Option<KafkaTopicStatus>,
}

/// The JSON text of a topic configuration with that retention (in milliseconds, as text) and
/// 1 GB segments: `{"retention.ms":"<retention>","segment.bytes":"1073741824"}`.
pub open spec fn topic_config_text(retention_ms: Seq<char>) -> Seq<char> {
    "{\"retention.ms\":\""@ + retention_ms + "\",\"segment.bytes\":\""@ + DEFAULT_SEGMENT_BYTES@
        + "\"}"@
}

/// The configuration given to topics created without one: two hours of retention and 1 GB
/// segments.
pub open spec fn default_topic_config_spec() -> Seq<char> {
    topic_config_text(DEFAULT_RETENTION_MS@)
}

/// The JSON text of a topic configuration with that retention and 1 GB segments.
pub fn topic_config(retention_ms: &str) -> (c: String)
    ensures
        c@ == topic_config_text(retention_ms@),
{
    "{\"retention.ms\":\"".to_owned().concat(retention_ms).concat("\",\"segment.bytes\":\"").concat(
        DEFAULT_SEGMENT_BYTES,
    ).concat("\"}")
}

/// The configuration given to topics created without one.
pub fn default_topic_config() -> (c: String)
    ensures
        c@ == default_topic_config_spec(),
{
    topic_config(DEFAULT_RETENTION_MS)
}

/// The topic to create: `name` in the Kafka namespace, labelled with its Strimzi cluster, with
/// the given partitions and replicas, and with `config` or else the default configuration.
pub fn kafka_topic_with_options(
    name: &str,
    partitions: i32,
    replicas: i32,
    cluster_name: &str,
    config: Option<String>,
) -> (t: KafkaTopic)
    ensures
        t.metadata.name.deep_view() == Some(name@),
        t.metadata.namespace.deep_view() == Some(DEFAULT_KAFKA_NAMESPACE@),
        t.metadata.labels.deep_view() == Some(seq![("strimzi.io/cluster"@, cluster_name@)]),
        t.spec.partitions == partitions,
        t.spec.replicas == replicas,
        config is Some ==> t.spec.config.deep_view() == config.deep_view(),
        config is None ==> t.spec.config.deep_view() == Some(default_topic_config_spec()),
        t.status is None,
{
    let mut labels: Vec<KeyValue> = Vec::new();
    labels.push(KeyValue::new("strimzi.io/cluster", cluster_name));
    assert(labels.deep_view() =~= seq![("strimzi.io/cluster"@, cluster_name@)]);
    let topic_config = match config {
        Some(c) => c,
        None => default_topic_config(),
    };
    KafkaTopic {
        metadata: TopicMetadata {
            name: Some(name.to_owned()),
            namespace: Some(DEFAULT_KAFKA_NAMESPACE.to_owned()),
            labels: Some(labels),
        },
        spec: KafkaTopicSpec { partitions, replicas, config: Some(topic_config) },
        status: None,
    }
}

/// The topic to create with the default cluster and configuration.
pub fn kafka_topic(name: &str, partitions: i32, replicas: i32) -> (t: KafkaTopic)
    ensures
        t.metadata.name.deep_view() == Some(name@),
        t.metadata.namespace.deep_view() == Some(DEFAULT_KAFKA_NAMESPACE@),
        t.metadata.labels.deep_view() == Some(
            seq![("strimzi.io/cluster"@, DEFAULT_CLUSTER_NAME@)],
        ),
        t.spec.partitions == partitions,
        t.spec.replicas == replicas,
        t.spec.config.deep_view() == Some(default_topic_config_spec()),
        t.status is None,
{
    kafka_topic_with_options(name, partitions, replicas, DEFAULT_CLUSTER_NAME, None)
}

/// Some condition has type `Ready` and status `True`.
pub open spec fn topic_conditions_ready(cs: Seq<(Seq<char>, Seq<char>)>) -> bool {
    exists|i: int| 0 <= i < cs.len() && cs[i].0 == "Ready"@ && cs[i].1 == "True"@
}

impl KafkaTopic {
    /// The topic's custom resource reports it as ready.
    pub open spec fn ready(&self) -> bool {
        &&& self.status matches Some(st)
        &&& st.conditions matches Some(cs)
        &&& topic_conditions_ready(cs.deep_view())
    }

    /// Whether the status has a condition of type `Ready` with status `True`.
    pub fn is_ready(&self) -> (r: bool)
        ensures
            r == self.ready(),
            self.status matches Some(st) ==> (st.conditions matches Some(cs) ==> (r
                <==> cs.deep_view().contains(("Ready"@, "True"@)))),
    {
        proof {
            lemma_topic_ready_iff_listed(*self);
        }
        match &self.status {
            Some(st) => match &st.conditions {
                Some(cs) => topic_conditions_are_ready(cs),
                None => false,
            },
            None => false,
        }
    }
}

fn topic_conditions_are_ready(cs: &Vec<KafkaTopicCondition>) -> (r: bool)
    ensures
        r == topic_conditions_ready(cs.deep_view()),
{
    let ready = "Ready".to_owned();
    let yes = "True".to_owned();
    let n = cs.len();
    let mut i: usize = 0;
    while i < n
        invariant
            n == cs.len(),
            i <= n,
            ready@ == "Ready"@,
            yes@ == "True"@,
            forall|j: int|
                0 <= j < i ==> !(#[trigger] cs.deep_view()[j].0 == "Ready"@
                    && cs.deep_view()[j].1 == "True"@),
        decreases n - i,
    {
        assert(cs.deep_view()[i as int] == cs[i as int]@);
        if cs[i].type_ == ready && cs[i].status == yes {
            return true;
        }
        i = i + 1;
    }
    false
}

/// A topic is ready exactly when its status lists a condition `(Ready, True)`, at any position:
/// no status or no condition list means not ready.
pub proof fn lemma_topic_ready_iff_listed(t: KafkaTopic)
    ensures
        t.status is None ==> !t.ready(),
        t.status matches Some(st) ==> (st.conditions is None ==> !t.ready()),
        t.status matches Some(st) ==> (st.conditions matches Some(cs) ==> (t.ready()
            <==> cs.deep_view().contains(("Ready"@, "True"@)))),
{
    if let Some(st) = t.status {
        if let Some(cs) = st.conditions {
            let v = cs.deep_view();
            if v.contains(("Ready"@, "True"@)) {
                let i = choose|i: int| 0 <= i < v.len() && v[i] == ("Ready"@, "True"@);
                assert(v[i].0 == "Ready"@ && v[i].1 == "True"@);
            }
            if t.ready() {
                let i = choose|i: int| 0 <= i < v.len() && v[i].0 == "Ready"@ && v[i].1 == "True"@;
                assert(v[i] == ("Ready"@, "True"@));
            }
        }
    }
}

/// Readiness does not depend on where `(Ready, True)` stands nor on the other conditions: a list
/// holding it anywhere is ready, and the order of the conditions does not matter.
pub proof fn lemma_topic_ready_anywhere(
    before: Seq<(Seq<char>, Seq<char>)>,
    after: Seq<(Seq<char>, Seq<char>)>,
)
    ensures
        topic_conditions_ready(before + seq![("Ready"@, "True"@)] + after),
        topic_conditions_ready(before + after) == topic_conditions_ready(after + before),
{
    let cs = before + seq![("Ready"@, "True"@)] + after;
    assert(cs[before.len() as int] == ("Ready"@, "True"@));
    let ab = before + after;
    let ba = after + before;
    if topic_conditions_ready(ab) {
        let i = choose|i: int| 0 <= i < ab.len() && ab[i].0 == "Ready"@ && ab[i].1 == "True"@;
        if i < before.len() {
            assert(ba[after.len() + i] == ab[i]);
        } else {
            assert(ba[i - before.len()] == ab[i]);
        }
    }
    if topic_conditions_ready(ba) {
        let i = choose|i: int| 0 <= i < ba.len() && ba[i].0 == "Ready"@ && ba[i].1 == "True"@;
        if i < after.len() {
            assert(ab[before.len() + i] == ba[i]);
        } else {
            assert(ab[i - after.len()] == ba[i]);
        }
    }
}

/// One look at the topic's custom resource: ready when it was read and reports `Ready=True`,
/// otherwise check again after a second.
pub fn topic_resource_observation(topic: Option<&KafkaTopic>) -> (obs: PollObservation)
    ensures
        obs == (if topic matches Some(t) && t.ready() {
            PollObservation::Ready
        } else {
            PollObservation::Pending { pause_ms: READINESS_PAUSE_MS }
        }),
{
    match topic {
        Some(t) => if t.is_ready() {
            PollObservation::Ready
        } else {
            PollObservation::Pending { pause_ms: READINESS_PAUSE_MS }
        },
        None => PollObservation::Pending { pause_ms: READINESS_PAUSE_MS },
    }
}

} // verus!
