//! The `SearchIndex` custom resource: its spec, its status and its defaults.
use vstd::prelude::*;

verus! {

/// How one document field is treated by the search index.
pub struct FieldSpec {
    pub name: String,
    pub searchable: bool,
    pub filterable: bool,
    pub sortable: bool,
}

/// Kafka topic configuration of a `SearchIndex`.
pub struct KafkaSpec {
    /// Number of partitions for the Kafka topic
    pub partitions: i32,
    /// Number of replicas for the Kafka topic
    pub replicas: i32,
    /// Strimzi cluster name
    pub cluster_name: Option<String>,
    /// Topic retention in milliseconds
    pub retention_ms: Option<i64>,
}

impl Default for KafkaSpec {
    /// The value used when a `SearchIndex` has no `kafka` section: every field zero or absent.
    fn default() -> (s: Self)
        ensures
            s.partitions == 0,
            s.replicas == 0,
            s.cluster_name is None,
            s.retention_ms is None,
    {
        KafkaSpec { partitions: 0, replicas: 0, cluster_name: None, retention_ms: None }
    }
}

/// Connector (Kafka consumer) configuration.
pub struct ConnectorSpec {
    /// Number of documents to batch before flushing to Meilisearch
    pub batch_size: usize,
    /// Timeout in milliseconds before flushing a partial batch
    pub batch_timeout_ms: u64,
}

impl Default for ConnectorSpec {
    fn default() -> (s: Self)
        ensures
            s.batch_size == 100,
            s.batch_timeout_ms == 1000,
    {
        ConnectorSpec { batch_size: default_batch_size(), batch_timeout_ms: default_batch_timeout_ms() }
    }
}

/// Search index configuration.
pub struct IndexSpec {
    /// Field definitions for the search index
    pub fields: Vec<FieldSpec>,
    /// Primary key field
    pub primary_key: Option<String>,
}

/// The desired state of a `SearchIndex`.
pub struct SearchIndexSpec {
    pub kafka: KafkaSpec,
    pub connector: ConnectorSpec,
    pub index: IndexSpec,
}

/// Partitions of the topic when `kafka.partitions` is left out.
pub fn default_partitions() -> (n: i32)
    ensures
        n == 1,
{
    1
}

/// Replicas of the topic when `kafka.replicas` is left out.
pub fn default_replicas() -> (n: i32)
    ensures
        n == 1,
{
    1
}

/// Documents per batch when `connector.batchSize` is left out.
pub fn default_batch_size() -> (n: usize)
    ensures
        n == 100,
{
    100
}

/// Milliseconds before a partial batch is flushed when `connector.batchTimeoutMs` is left out.
pub fn default_batch_timeout_ms() -> (n: u64)
    ensures
        n == 1000,
{
    1000
}

/// One entry of `status.conditions`.
pub struct Condition {
    pub type_: String,
    pub status: String,
    pub reason: Option<String>,
    pub message: Option<String>,
    pub last_transition_time: Option<String>,
}

/// A condition as text values.
pub struct ConditionView {
    pub type_: Seq<char>,
    pub status: Seq<char>,
    pub reason: Option<Seq<char>>,
    pub message: Option<Seq<char>>,
    pub last_transition_time: Option<Seq<char>>,
}

impl View for Condition {
    type V = ConditionView;

    open spec fn view(&self) -> ConditionView {
        ConditionView {
            type_: self.type_@,
            status: self.status@,
            reason: self.reason.deep_view(),
            message: self.message.deep_view(),
            last_transition_time: self.last_transition_time.deep_view(),
        }
    }
}

impl DeepView for Condition {
    type V = ConditionView;

    open spec fn deep_view(&self) -> ConditionView {
        self@
    }
}

/// The observed state of a `SearchIndex`.
pub struct SearchIndexStatus {
    pub conditions: Option<Vec<Condition>>,
    /// Name of the created Kafka topic
    pub kafka_topic: Option<String>,
    /// Name of the created Meilisearch index
    pub meilisearch_index: Option<String>,
    pub observed_generation: Option<i64>,
}

/// A status as text values.
pub struct SearchIndexStatusView {
    pub conditions: Option<Seq<ConditionView>>,
    pub kafka_topic: Option<Seq<char>>,
    pub meilisearch_index: Option<Seq<char>>,
    pub observed_generation: Option<i64>,
}

impl View for SearchIndexStatus {
    type V = SearchIndexStatusView;

    open spec fn view(&self) -> SearchIndexStatusView {
        SearchIndexStatusView {
            conditions: self.conditions.deep_view(),
            kafka_topic: self.kafka_topic.deep_view(),
            meilisearch_index: self.meilisearch_index.deep_view(),
            observed_generation: self.observed_generation,
        }
    }
}

impl Default for SearchIndexStatus {
    /// The status of a `SearchIndex` that has none yet: every field absent.
    fn default() -> (s: Self)
        ensures
            s@ == (SearchIndexStatusView {
                conditions: None,
                kafka_topic: None,
                meilisearch_index: None,
                observed_generation: None,
            }),
    {
        SearchIndexStatus {
            conditions: None,
            kafka_topic: None,
            meilisearch_index: None,
            observed_generation: None,
        }
    }
}

/// Some condition has type `Ready` and status `True`.
pub open spec fn has_ready_condition(cs: Seq<ConditionView>) -> bool {
    exists|i: int| 0 <= i < cs.len() && cs[i].type_ == "Ready"@ && cs[i].status == "True"@
}

impl SearchIndexStatusView {
    /// The status reports the resource as ready.
    pub open spec fn is_ready(self) -> bool {
        self.conditions matches Some(cs) && has_ready_condition(cs)
    }
}

/// Whether some condition in `cs` has type `Ready` and status `True`.
pub fn conditions_ready(cs: &Vec<Condition>) -> (r: bool)
    ensures
        r == has_ready_condition(cs.deep_view()),
{
    let ready = "Ready".to_owned();
    let yes = "True".to_owned();
    let n = cs.len();
    let mut i: usize = 0;
    while i < n
        invariant
            n == cs.len(),
            i <= n,
            ready@ == "Ready"@,
            yes@ == "True"@,
            forall|j: int|
                0 <= j < i ==> !(#[trigger] cs.deep_view()[j].type_ == "Ready"@ && cs.deep_view()[j].status
                    == "True"@),
        decreases n - i,
    {
        if cs[i].type_ == ready && cs[i].status == yes {
            assert(cs.deep_view()[i as int] == cs[i as int]@);
            return true;
        }
        assert(cs.deep_view()[i as int] == cs[i as int]@);
        i = i + 1;
    }
    false
}

/// The identifying part of a resource's metadata.
pub struct ObjectMeta {
    pub name: Option<String>,
    pub generate_name: Option<String>,
    pub namespace: Option<String>,
    pub uid: Option<String>,
    pub generation: Option<i64>,
}

impl ObjectMeta {
    /// The name if present, else the generated-name prefix, else the empty text.
    pub open spec fn any_name(self) -> Seq<char> {
        match self.name {
            Some(n) => n@,
            None => match self.generate_name {
                Some(g) => g@,
                None => Seq::empty(),
            },
        }
    }

    /// The text of an optional field, or the empty text.
    pub open spec fn text_or_empty(field: Option<String>) -> Seq<char> {
        match field {
            Some(s) => s@,
            None => Seq::empty(),
        }
    }
}

/// Returns the text of an optional field, or the empty text.
fn clone_or_empty(field: &Option<String>) -> (s: String)
    ensures
        s@ == ObjectMeta::text_or_empty(*field),
{
    match field {
        Some(v) => v.clone(),
        None => String::new(),
    }
}

/// The `SearchIndex` custom resource (group `stratum.dev`, version `v1`).
pub struct SearchIndex {
    pub metadata: ObjectMeta,
    pub spec: SearchIndexSpec,
    pub status: Option<SearchIndexStatus>,
}

impl SearchIndex {
    /// The most useful name available: the name, else the generated-name prefix, else "".
    pub fn name_any(&self) -> (s: String)
        ensures
            s@ == self.metadata.any_name(),
    {
        match &self.metadata.name {
            Some(n) => n.clone(),
            None => clone_or_empty(&self.metadata.generate_name),
        }
    }

    /// The namespace, or "" when it is not set.
    pub fn namespace_or_default(&self) -> (s: String)
        ensures
            s@ == ObjectMeta::text_or_empty(self.metadata.namespace),
    {
        clone_or_empty(&self.metadata.namespace)
    }

    /// The uid, or "" when it is not set.
    pub fn uid_or_default(&self) -> (s: String)
        ensures
            s@ == ObjectMeta::text_or_empty(self.metadata.uid),
    {
        clone_or_empty(&self.metadata.uid)
    }

    /// The resource is ready: its status has a condition of type `Ready` with status `True`.
    pub fn is_ready(&self) -> (r: bool)
        ensures
            r == (self.status matches Some(st) && st@.is_ready()),
    {
        match &self.status {
            None => false,
            Some(st) => match &st.conditions {
                None => false,
                Some(cs) => conditions_ready(cs),
            },
        }
    }
}

} // verus!
