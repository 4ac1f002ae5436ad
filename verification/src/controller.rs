//! The reconcile decisions of the `SearchIndex` controller: resource names, the order of the
//! apply steps, the status written after each outcome and when to look again.
use vstd::prelude::*;

use crate::clock::utc_timestamp;
use crate::crd::{has_ready_condition, ConditionView, IndexSpec, KafkaSpec, SearchIndexStatus, SearchIndexStatusView};
use crate::kafka::config::{DEFAULT_CLUSTER_NAME, DEFAULT_KAFKA_NAMESPACE, DEFAULT_RETENTION_MS};
use crate::kafka::topic::{kafka_topic_with_options, topic_config, topic_config_text, KafkaTopic};
use crate::meilisearch::{create_index_request, CreateIndexRequest, DEFAULT_PRIMARY_KEY};
use crate::text::{decimal_i64, signed_decimal};
use crate::status::{
    first_of_type, lemma_position_of_type, lemma_recorded_condition_holds, new_condition,
    set_condition, unique_types, upsert_condition,
};

verus! {

/// The finalizer that the controller puts on every `SearchIndex` it manages.
pub const FINALIZER: &'static str = "searchindex.stratum.dev/cleanup";

/// The field manager named in status patches.
pub const FIELD_MANAGER: &'static str = "search-operator";

/// What the controller asks of the runtime after a reconcile.
pub enum ReconcileAction {
    /// Reconcile again after this many seconds.
    Requeue { seconds: u64 },
    /// Reconcile again only when the object changes.
    AwaitChange,
}

/// Name of the Kafka topic that feeds the index: `<namespace>-<name>-ingest`.
pub fn ingest_topic_name(namespace: &str, name: &str) -> (s: String)
    ensures
        s@ == namespace@ + "-"@ + name@ + "-ingest"@,
{
    namespace.to_owned().concat("-").concat(name).concat("-ingest")
}

/// Name of the Meilisearch index of a `SearchIndex`: its own name.
pub fn index_name(name: &str) -> (s: String)
    ensures
        s@ == name@,
{
    name.to_owned()
}

/// The Strimzi cluster of the topic: the one named in the spec, else `my-cluster`.
pub open spec fn topic_cluster(kafka: KafkaSpec) -> Seq<char> {
    match kafka.cluster_name {
        Some(c) => c@,
        None => DEFAULT_CLUSTER_NAME@,
    }
}

/// The retention of the topic as text: the one in the spec, else two hours.
pub open spec fn topic_retention(kafka: KafkaSpec) -> Seq<char> {
    match kafka.retention_ms {
        Some(r) => signed_decimal(r as int),
        None => DEFAULT_RETENTION_MS@,
    }
}

/// The Kafka topic of a `SearchIndex` whose spec has that `kafka` section: named `topic_name` in
/// the Kafka namespace, in the spec's Strimzi cluster (else `my-cluster`), with the spec's
/// partitions and replicas, and configured with the spec's retention (else two hours) and 1 GB
/// segments.
pub fn search_index_topic(kafka: &KafkaSpec, topic_name: &str) -> (t: KafkaTopic)
    ensures
        t.metadata.name.deep_view() == Some(topic_name@),
        t.metadata.namespace.deep_view() == Some(DEFAULT_KAFKA_NAMESPACE@),
        t.metadata.labels.deep_view() == Some(seq![("strimzi.io/cluster"@, topic_cluster(*kafka))]),
        t.spec.partitions == kafka.partitions,
        t.spec.replicas == kafka.replicas,
        t.spec.config.deep_view() == Some(topic_config_text(topic_retention(*kafka))),
        t.status is None,
{
    let cluster = match &kafka.cluster_name {
        Some(c) => c.clone(),
        None => DEFAULT_CLUSTER_NAME.to_owned(),
    };
    let retention = match kafka.retention_ms {
        Some(r) => decimal_i64(r),
        None => DEFAULT_RETENTION_MS.to_owned(),
    };
    let config = topic_config(retention.as_str());
    kafka_topic_with_options(
        topic_name,
        kafka.partitions,
        kafka.replicas,
        cluster.as_str(),
        Some(config),
    )
}

/// The request that creates the Meilisearch index of a `SearchIndex` whose spec has that
/// `index` section: named `uid`, with the spec's primary key, else `id`.
pub fn search_index_index_request(index: &IndexSpec, uid: &str) -> (r: CreateIndexRequest)
    ensures
        r.uid@ == uid@,
        r.primary_key.deep_view() == Some(
            match index.primary_key {
                Some(k) => k@,
                None => DEFAULT_PRIMARY_KEY@,
            },
        ),
{
    match &index.primary_key {
        Some(k) => create_index_request(uid, k.as_str()),
        None => create_index_request(uid, DEFAULT_PRIMARY_KEY),
    }
}

/// The steps of an apply, in the order in which they run.
pub enum ApplyStep {
    /// Create the Kafka topic unless it exists.
    EnsureTopic,
    /// Wait until the topic is ready at every layer.
    AwaitTopicReady,
    /// Create the Meilisearch index unless it exists.
    CreateIndex,
    /// Set the searchable, filterable and sortable attributes of the index.
    ConfigureIndex,
    /// Create the consumer Deployment unless it exists.
    EnsureConsumer,
    /// Every step succeeded.
    Complete,
    /// A step failed; no later step runs.
    Failed,
}

impl ApplyStep {
    /// Position of the step in the apply sequence.
    pub open spec fn position(self) -> nat {
        match self {
            ApplyStep::EnsureTopic => 0,
            ApplyStep::AwaitTopicReady => 1,
            ApplyStep::CreateIndex => 2,
            ApplyStep::ConfigureIndex => 3,
            ApplyStep::EnsureConsumer => 4,
            ApplyStep::Complete => 5,
            ApplyStep::Failed => 5,
        }
    }

    /// The apply is over, whether it succeeded or failed.
    pub open spec fn finished(self) -> bool {
        self is Complete || self is Failed
    }

    /// The state after running `self` with that result: the next step when it succeeded,
    /// `Failed` when it did not; a finished apply stays as it is.
    pub open spec fn after(self, succeeded: bool) -> ApplyStep {
        if self.finished() {
            self
        } else if !succeeded {
            ApplyStep::Failed
        } else {
            match self {
                ApplyStep::EnsureTopic => ApplyStep::AwaitTopicReady,
                ApplyStep::AwaitTopicReady => ApplyStep::CreateIndex,
                ApplyStep::CreateIndex => ApplyStep::ConfigureIndex,
                ApplyStep::ConfigureIndex => ApplyStep::EnsureConsumer,
                _ => ApplyStep::Complete,
            }
        }
    }

    /// The first step of every apply.
    pub fn first() -> (s: ApplyStep)
        ensures
            s == ApplyStep::EnsureTopic,
    {
        ApplyStep::EnsureTopic
    }

    /// The state once `self` has run with that result.
    pub fn advance(&self, succeeded: bool) -> (s: ApplyStep)
        ensures
            s == self.after(succeeded),
    {
        match self {
            ApplyStep::Complete => ApplyStep::Complete,
            ApplyStep::Failed => ApplyStep::Failed,
            _ => if !succeeded {
                ApplyStep::Failed
            } else {
                match self {
                    ApplyStep::EnsureTopic => ApplyStep::AwaitTopicReady,
                    ApplyStep::AwaitTopicReady => ApplyStep::CreateIndex,
                    ApplyStep::CreateIndex => ApplyStep::ConfigureIndex,
                    ApplyStep::ConfigureIndex => ApplyStep::EnsureConsumer,
                    _ => ApplyStep::Complete,
                }
            },
        }
    }

    /// Whether the apply is over, whether it succeeded or failed.
    pub fn is_finished(&self) -> (r: bool)
        ensures
            r == self.finished(),
    {
        match self {
            ApplyStep::Complete => true,
            ApplyStep::Failed => true,
            _ => false,
        }
    }
}

/// The state of an apply after `k` steps whose results are `results(0)`, `results(1)`, ...
pub open spec fn apply_after(results: spec_fn(nat) -> bool, k: nat) -> ApplyStep
    decreases k,
{
    if k == 0 {
        ApplyStep::EnsureTopic
    } else {
        apply_after(results, (k - 1) as nat).after(results((k - 1) as nat))
    }
}

/// An apply runs its steps in order, one at a time: while every step so far succeeded, the
/// `k`-th step to run is the one at position `k`; after the fifth success it is complete; and the
/// first failure ends it as failed, with no further step run.
pub proof fn lemma_apply_runs_steps_in_order(results: spec_fn(nat) -> bool, k: nat)
    ensures
        (forall|j: nat| j < k ==> #[trigger] results(j)) ==> (if k < 5 {
            apply_after(results, k).position() == k && !apply_after(results, k).finished()
        } else {
            apply_after(results, k) == ApplyStep::Complete
        }),
        (exists|j: nat| j < k && j < 5 && !#[trigger] results(j)) ==> apply_after(results, k)
            == ApplyStep::Failed,
    decreases k,
{
    if k > 0 {
        let p = (k - 1) as nat;
        lemma_apply_runs_steps_in_order(results, p);
        if exists|j: nat| j < k && j < 5 && !#[trigger] results(j) {
            let j0 = choose|j: nat| j < k && j < 5 && !#[trigger] results(j);
            if exists|i: nat| i < p && i < 5 && !#[trigger] results(i) {
            } else {
                assert forall|i: nat| i < p implies #[trigger] results(i) by {
                    if !results(i) {
                        assert(i < p && i < 5 && !results(i));
                    }
                }
                assert(j0 == p);
            }
        }
    }
}

/// The status written after a successful apply.
pub open spec fn succeeded_status(
    st: SearchIndexStatusView,
    topic: Seq<char>,
    index: Seq<char>,
    generation: Option<i64>,
    now: Seq<char>,
) -> SearchIndexStatusView {
    SearchIndexStatusView {
        kafka_topic: Some(topic),
        meilisearch_index: Some(index),
        observed_generation: generation,
        ..st
    }.with_condition(
        new_condition(
            "Ready"@,
            "True"@,
            "Reconciled"@,
            "All resources created successfully"@,
            now,
        ),
    )
}

/// The status written after a failed apply whose error reads `message`.
pub open spec fn failed_status(
    st: SearchIndexStatusView,
    message: Seq<char>,
    now: Seq<char>,
) -> SearchIndexStatusView {
    st.with_condition(new_condition("Ready"@, "False"@, "ReconcileError"@, message, now))
}

/// The status to update: the one that exists, or an empty one.
pub fn status_or_default(existing: Option<SearchIndexStatus>) -> (s: SearchIndexStatus)
    ensures
        existing matches Some(e) ==> s@ == e@,
        existing is None ==> s@ == (SearchIndexStatusView {
            conditions: None,
            kafka_topic: None,
            meilisearch_index: None,
            observed_generation: None,
        }),
{
    match existing {
        Some(e) => e,
        None => SearchIndexStatus::default(),
    }
}

/// Records a successful apply: the topic and index names, the generation that was reconciled,
/// and the condition `Ready=True` (reason `Reconciled`).
pub fn record_success(
    status: &mut SearchIndexStatus,
    topic_name: String,
    index_name: String,
    generation: Option<i64>,
)
    ensures
        exists|now: Seq<char>|
            utc_timestamp(now) && final(status)@ == #[trigger] succeeded_status(
                old(status)@,
                topic_name@,
                index_name@,
                generation,
                now,
            ),
        final(status)@.kafka_topic == Some(topic_name@),
        final(status)@.meilisearch_index == Some(index_name@),
        final(status)@.observed_generation == generation,
        exists|i: int|
            #![trigger first_ready_at(conditions_of(final(status)@), i)]
            first_ready_at(conditions_of(final(status)@), i) && conditions_of(final(status)@)[i].status
                == "True"@,
        old(status)@.conditions is None ==> exists|now: Seq<char>|
            utc_timestamp(now) && final(status)@.conditions == Some(
                seq![#[trigger] reconciled_condition(now)],
            ),
{
    let ghost topic = topic_name@;
    let ghost index = index_name@;
    status.kafka_topic = Some(topic_name);
    status.meilisearch_index = Some(index_name);
    status.observed_generation = generation;
    let ghost filled = status@;
    assert(filled == SearchIndexStatusView {
        kafka_topic: Some(topic),
        meilisearch_index: Some(index),
        observed_generation: generation,
        ..old(status)@
    });
    set_condition(status, "Ready", "True", "Reconciled", "All resources created successfully");
    assert(exists|now: Seq<char>|
        utc_timestamp(now) && status@ == #[trigger] succeeded_status(old(status)@, topic, index, generation, now)) by {
        let now = choose|now: Seq<char>|
            utc_timestamp(now) && status@ == #[trigger] filled.with_condition(
                new_condition(
                    "Ready"@,
                    "True"@,
                    "Reconciled"@,
                    "All resources created successfully"@,
                    now,
                ),
            );
        assert(status@ == succeeded_status(old(status)@, topic, index, generation, now));
    }
    proof {
        let now = choose|now: Seq<char>|
            utc_timestamp(now) && status@ == #[trigger] succeeded_status(
                old(status)@,
                topic,
                index,
                generation,
                now,
            );
        lemma_success_recorded(old(status)@, topic, index, generation, now);
        if old(status)@.conditions is None {
            assert(status@.conditions == Some(seq![reconciled_condition(now)]));
        }
    }
}

/// Records a failed apply: the condition `Ready=False` (reason `ReconcileError`) with the
/// error's text as its message; nothing else changes.
pub fn record_failure(status: &mut SearchIndexStatus, message: &str)
    ensures
        exists|now: Seq<char>|
            utc_timestamp(now) && final(status)@ == #[trigger] failed_status(old(status)@, message@, now),
        exists|i: int|
            #![trigger first_ready_at(conditions_of(final(status)@), i)]
            first_ready_at(conditions_of(final(status)@), i) && conditions_of(final(status)@)[i].status
                == "False"@,
        old(status)@.conditions is None ==> exists|now: Seq<char>|
            utc_timestamp(now) && final(status)@.conditions == Some(
                seq![#[trigger] reconcile_error_condition(message@, now)],
            ),
{
    set_condition(status, "Ready", "False", "ReconcileError", message);
    assert(exists|now: Seq<char>|
        utc_timestamp(now) && status@ == #[trigger] failed_status(old(status)@, message@, now)) by {
        let now = choose|now: Seq<char>|
            utc_timestamp(now) && status@ == #[trigger] old(status)@.with_condition(
                new_condition("Ready"@, "False"@, "ReconcileError"@, message@, now),
            );
        assert(status@ == failed_status(old(status)@, message@, now));
        lemma_failure_recorded(old(status)@, message@, now);
    }
    proof {
        let now = choose|now: Seq<char>|
            utc_timestamp(now) && status@ == #[trigger] failed_status(old(status)@, message@, now);
        lemma_failure_recorded(old(status)@, message@, now);
        if old(status)@.conditions is None {
            assert(status@.conditions == Some(seq![reconcile_error_condition(message@, now)]));
        }
    }
}

/// When to reconcile again after an apply: in five minutes after a success, in thirty seconds
/// after a failure.
pub fn apply_action(succeeded: bool) -> (a: ReconcileAction)
    ensures
        succeeded ==> a == (ReconcileAction::Requeue { seconds: 300 }),
        !succeeded ==> a == (ReconcileAction::Requeue { seconds: 30 }),
{
    if succeeded {
        ReconcileAction::Requeue { seconds: 300 }
    } else {
        ReconcileAction::Requeue { seconds: 30 }
    }
}

/// After a cleanup the controller waits for the object to change.
pub fn cleanup_action() -> (a: ReconcileAction)
    ensures
        a == ReconcileAction::AwaitChange,
{
    ReconcileAction::AwaitChange
}

/// After a reconcile error the controller tries again in thirty seconds.
pub fn error_policy() -> (a: ReconcileAction)
    ensures
        a == (ReconcileAction::Requeue { seconds: 30 }),
{
    ReconcileAction::Requeue { seconds: 30 }
}

/// A successful apply leaves the `SearchIndex` ready.
pub proof fn lemma_success_reports_ready(
    st: SearchIndexStatusView,
    topic: Seq<char>,
    index: Seq<char>,
    generation: Option<i64>,
    now: Seq<char>,
)
    ensures
        succeeded_status(st, topic, index, generation, now).is_ready(),
        succeeded_status(st, topic, index, generation, now).kafka_topic == Some(topic),
        succeeded_status(st, topic, index, generation, now).meilisearch_index == Some(index),
        succeeded_status(st, topic, index, generation, now).observed_generation == generation,
{
    let filled = SearchIndexStatusView {
        kafka_topic: Some(topic),
        meilisearch_index: Some(index),
        observed_generation: generation,
        ..st
    };
    let c = new_condition(
        "Ready"@,
        "True"@,
        "Reconciled"@,
        "All resources created successfully"@,
        now,
    );
    let cs = filled.conditions.unwrap_or(Seq::empty());
    lemma_recorded_condition_holds(cs, c);
    let r = upsert_condition(cs, c);
    let i = first_of_type(r, c.type_);
    lemma_position_of_type(r, c.type_, 0);
    assert(r[i].type_ == "Ready"@ && r[i].status == "True"@);
    assert(has_ready_condition(r));
}

/// A failed apply leaves the `SearchIndex` not ready, provided its conditions had distinct
/// types (which recording conditions preserves).
pub proof fn lemma_failure_reports_not_ready(
    st: SearchIndexStatusView,
    message: Seq<char>,
    now: Seq<char>,
)
    requires
        unique_types(st.conditions.unwrap_or(Seq::empty())),
    ensures
        !failed_status(st, message, now).is_ready(),
{
    let c = new_condition("Ready"@, "False"@, "ReconcileError"@, message, now);
    let cs = st.conditions.unwrap_or(Seq::empty());
    lemma_recorded_condition_holds(cs, c);
    crate::status::lemma_types_stay_unique(cs, c);
    let r = upsert_condition(cs, c);
    let i = first_of_type(r, c.type_);
    lemma_position_of_type(r, c.type_, 0);
    reveal_strlit("False");
    reveal_strlit("True");
    assert("False"@ != "True"@) by {
        assert("False"@[0] != "True"@[0]);
    }
    assert forall|j: int| 0 <= j < r.len() implies !(#[trigger] r[j].type_ == "Ready"@ && r[j].status
        == "True"@) by {
        if j != i && r[j].type_ == "Ready"@ {
            assert(r[j].type_ == r[i].type_);
        }
    }
}

/// The condition that reports a failed reconcile: `Ready=False`, reason `ReconcileError`, the
/// error's text as message, stamped with `now`.
pub open spec fn reconcile_error_condition(message: Seq<char>, now: Seq<char>) -> ConditionView {
    ConditionView {
        type_: "Ready"@,
        status: "False"@,
        reason: Some("ReconcileError"@),
        message: Some(message),
        last_transition_time: Some(now),
    }
}

/// `cs[i]` is the first condition of type `Ready` in `cs`.
pub open spec fn first_ready_at(cs: Seq<ConditionView>, i: int) -> bool {
    &&& 0 <= i < cs.len()
    &&& cs[i].type_ == "Ready"@
    &&& forall|j: int| 0 <= j < i ==> #[trigger] cs[j].type_ != "Ready"@
}

/// The conditions of a status; none when the list is absent.
pub open spec fn conditions_of(st: SearchIndexStatusView) -> Seq<ConditionView> {
    match st.conditions {
        Some(cs) => cs,
        None => Seq::empty(),
    }
}

/// Recording a failure always leaves a list of conditions whose first `Ready` condition says
/// `False`, and changes nothing but the conditions. When the status had no conditions, the list
/// is that one failure condition. When the first `Ready` condition did not already say `False`
/// (or there was none), the first `Ready` condition is now exactly the failure condition with the
/// error's text and the time of recording; when it already said `False`, the conditions are kept
/// as they were, as the first failure is still the one in force.
pub proof fn lemma_failure_recorded(st: SearchIndexStatusView, message: Seq<char>, now: Seq<char>)
    ensures
        failed_status(st, message, now).conditions is Some,
        failed_status(st, message, now).kafka_topic == st.kafka_topic,
        failed_status(st, message, now).meilisearch_index == st.meilisearch_index,
        failed_status(st, message, now).observed_generation == st.observed_generation,
        exists|i: int|
            #![trigger first_ready_at(conditions_of(failed_status(st, message, now)), i)]
            first_ready_at(conditions_of(failed_status(st, message, now)), i) && conditions_of(
                failed_status(st, message, now),
            )[i].status == "False"@,
        st.conditions is None ==> failed_status(st, message, now).conditions == Some(
            seq![reconcile_error_condition(message, now)],
        ),
        (forall|i: int|
            #![trigger first_ready_at(conditions_of(st), i)]
            first_ready_at(conditions_of(st), i) ==> conditions_of(st)[i].status != "False"@)
            ==> exists|i: int|
            #![trigger first_ready_at(conditions_of(failed_status(st, message, now)), i)]
            first_ready_at(conditions_of(failed_status(st, message, now)), i) && conditions_of(
                failed_status(st, message, now),
            )[i] == reconcile_error_condition(message, now),
        forall|i: int|
            #![trigger first_ready_at(conditions_of(st), i)]
            first_ready_at(conditions_of(st), i) && conditions_of(st)[i].status == "False"@
                ==> failed_status(st, message, now).conditions == Some(conditions_of(st)),
{
    let cs = conditions_of(st);
    let c = new_condition("Ready"@, "False"@, "ReconcileError"@, message, now);
    assert(c == reconcile_error_condition(message, now));
    assert(failed_status(st, message, now).conditions == Some(upsert_condition(cs, c)));
    assert(conditions_of(failed_status(st, message, now)) == upsert_condition(cs, c));
    lemma_ready_recorded(st, c);
    if st.conditions is None {
        assert(upsert_condition(cs, c) =~= seq![c]);
    }
}

/// The conditions of a status after the `Ready` condition `c` is recorded: the first `Ready`
/// condition carries `c`'s status; it is `c` itself unless it already had that status, in which
/// case the conditions are kept as they were.
proof fn lemma_ready_recorded(st: SearchIndexStatusView, c: ConditionView)
    requires
        c.type_ == "Ready"@,
    ensures
        exists|i: int|
            #![trigger first_ready_at(upsert_condition(conditions_of(st), c), i)]
            first_ready_at(upsert_condition(conditions_of(st), c), i) && upsert_condition(
                conditions_of(st),
                c,
            )[i].status == c.status,
        (forall|i: int|
            #![trigger first_ready_at(conditions_of(st), i)]
            first_ready_at(conditions_of(st), i) ==> conditions_of(st)[i].status != c.status)
            ==> exists|i: int|
            #![trigger first_ready_at(upsert_condition(conditions_of(st), c), i)]
            first_ready_at(upsert_condition(conditions_of(st), c), i) && upsert_condition(
                conditions_of(st),
                c,
            )[i] == c,
        forall|i: int|
            #![trigger first_ready_at(conditions_of(st), i)]
            first_ready_at(conditions_of(st), i) && conditions_of(st)[i].status == c.status
                ==> upsert_condition(conditions_of(st), c) == conditions_of(st),
{
    let cs = conditions_of(st);
    let r = upsert_condition(cs, c);
    let p = first_of_type(cs, "Ready"@);
    lemma_position_of_type(cs, "Ready"@, 0);
    // Any first `Ready` position of `cs` is `p`.
    assert forall|i: int| first_ready_at(cs, i) implies i == p by {
        if p < 0 {
            assert(cs[i].type_ != "Ready"@);
        } else if p < i {
            assert(cs[p].type_ != "Ready"@);
        } else if i < p {
            assert(cs[i].type_ != "Ready"@);
        }
    }
    if p < 0 {
        assert(r[cs.len() as int] == c);
        assert forall|j: int| 0 <= j < cs.len() implies #[trigger] r[j].type_ != "Ready"@ by {
            assert(r[j] == cs[j]);
        }
        assert(first_ready_at(r, cs.len() as int));
    } else if cs[p].status == c.status {
        assert(r == cs);
        assert(first_ready_at(r, p));
    } else {
        assert forall|j: int| 0 <= j < p implies #[trigger] r[j].type_ != "Ready"@ by {
            assert(r[j] == cs[j]);
        }
        assert(first_ready_at(r, p));
        assert(first_ready_at(cs, p));
    }
}

/// The condition that reports a successful reconcile, stamped with `now`.
pub open spec fn reconciled_condition(now: Seq<char>) -> ConditionView {
    ConditionView {
        type_: "Ready"@,
        status: "True"@,
        reason: Some("Reconciled"@),
        message: Some("All resources created successfully"@),
        last_transition_time: Some(now),
    }
}

/// Recording a success always leaves a list of conditions whose first `Ready` condition says
/// `True`, together with the topic, the index and the generation; when the status had no
/// conditions the list is that one condition, and when the first `Ready` condition did not
/// already say `True` (or there was none) it is now exactly the success condition stamped with
/// the time of recording; when it already said `True`, the conditions are kept as they were.
pub proof fn lemma_success_recorded(
    st: SearchIndexStatusView,
    topic: Seq<char>,
    index: Seq<char>,
    generation: Option<i64>,
    now: Seq<char>,
)
    ensures
        succeeded_status(st, topic, index, generation, now).conditions is Some,
        succeeded_status(st, topic, index, generation, now).kafka_topic == Some(topic),
        succeeded_status(st, topic, index, generation, now).meilisearch_index == Some(index),
        succeeded_status(st, topic, index, generation, now).observed_generation == generation,
        exists|i: int|
            #![trigger first_ready_at(conditions_of(succeeded_status(st, topic, index, generation, now)), i)]
            first_ready_at(conditions_of(succeeded_status(st, topic, index, generation, now)), i)
                && conditions_of(succeeded_status(st, topic, index, generation, now))[i].status
                == "True"@,
        st.conditions is None ==> succeeded_status(st, topic, index, generation, now).conditions
            == Some(seq![reconciled_condition(now)]),
        (forall|i: int|
            #![trigger first_ready_at(conditions_of(st), i)]
            first_ready_at(conditions_of(st), i) ==> conditions_of(st)[i].status != "True"@)
            ==> exists|i: int|
            #![trigger first_ready_at(conditions_of(succeeded_status(st, topic, index, generation, now)), i)]
            first_ready_at(conditions_of(succeeded_status(st, topic, index, generation, now)), i)
                && conditions_of(succeeded_status(st, topic, index, generation, now))[i]
                == reconciled_condition(now),
        forall|i: int|
            #![trigger first_ready_at(conditions_of(st), i)]
            first_ready_at(conditions_of(st), i) && conditions_of(st)[i].status == "True"@
                ==> succeeded_status(st, topic, index, generation, now).conditions == Some(
                conditions_of(st),
            ),
{
    let filled = SearchIndexStatusView {
        kafka_topic: Some(topic),
        meilisearch_index: Some(index),
        observed_generation: generation,
        ..st
    };
    let c = new_condition(
        "Ready"@,
        "True"@,
        "Reconciled"@,
        "All resources created successfully"@,
        now,
    );
    assert(c == reconciled_condition(now));
    assert(conditions_of(filled) == conditions_of(st));
    let cs = conditions_of(st);
    assert(cs == filled.conditions.unwrap_or(Seq::empty()));
    assert(succeeded_status(st, topic, index, generation, now).conditions == Some(
        upsert_condition(cs, c),
    ));
    assert(conditions_of(succeeded_status(st, topic, index, generation, now)) == upsert_condition(
        cs,
        c,
    ));
    lemma_ready_recorded(st, c);
    if st.conditions is None {
        assert(upsert_condition(cs, c) =~= seq![c]);
    }
}

} // verus!
