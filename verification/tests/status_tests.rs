use search_controller::controller::{
    apply_action, cleanup_action, error_policy, index_name, ingest_topic_name, record_failure,
    record_success, status_or_default, ApplyStep, ReconcileAction, FINALIZER,
};
use search_controller::status::{set_condition, set_condition_at};
use search_controller::{Condition, SearchIndexStatus};

fn empty_status() -> SearchIndexStatus {
    SearchIndexStatus::default()
}

fn cond(type_: &str, status: &str, time: &str) -> Condition {
    Condition {
        type_: type_.to_string(),
        status: status.to_string(),
        reason: Some("R".to_string()),
        message: Some("M".to_string()),
        last_transition_time: Some(time.to_string()),
    }
}

#[test]
fn set_condition_appends_a_new_type() {
    let mut st = empty_status();
    set_condition_at(&mut st, "Ready", "True", "Reconciled", "ok", "t1".to_string());
    let cs = st.conditions.as_ref().unwrap();
    assert_eq!(cs.len(), 1);
    assert_eq!(cs[0].type_, "Ready");
    assert_eq!(cs[0].status, "True");
    assert_eq!(cs[0].reason.as_deref(), Some("Reconciled"));
    assert_eq!(cs[0].message.as_deref(), Some("ok"));
    assert_eq!(cs[0].last_transition_time.as_deref(), Some("t1"));
}

#[test]
fn set_condition_keeps_a_condition_whose_status_is_unchanged() {
    let mut st = empty_status();
    st.conditions = Some(vec![cond("Ready", "True", "t0")]);
    set_condition_at(&mut st, "Ready", "True", "Again", "again", "t1".to_string());
    let cs = st.conditions.as_ref().unwrap();
    assert_eq!(cs.len(), 1);
    assert_eq!(cs[0].reason.as_deref(), Some("R"));
    assert_eq!(cs[0].last_transition_time.as_deref(), Some("t0"));
}

#[test]
fn set_condition_replaces_the_first_condition_on_a_status_change() {
    let mut st = empty_status();
    st.conditions = Some(vec![
        cond("Synced", "True", "t0"),
        cond("Ready", "True", "t0"),
        cond("Ready", "True", "t0"),
    ]);
    set_condition_at(&mut st, "Ready", "False", "ReconcileError", "boom", "t2".to_string());
    let cs = st.conditions.as_ref().unwrap();
    assert_eq!(cs.len(), 3);
    assert_eq!(cs[0].status, "True");
    assert_eq!(cs[1].status, "False");
    assert_eq!(cs[1].message.as_deref(), Some("boom"));
    assert_eq!(cs[1].last_transition_time.as_deref(), Some("t2"));
    assert_eq!(cs[2].status, "True");
}

#[test]
fn set_condition_leaves_other_fields() {
    let mut st = empty_status();
    st.kafka_topic = Some("topic".to_string());
    st.observed_generation = Some(7);
    set_condition(&mut st, "Ready", "True", "Reconciled", "ok");
    assert_eq!(st.kafka_topic.as_deref(), Some("topic"));
    assert_eq!(st.observed_generation, Some(7));
    let cs = st.conditions.as_ref().unwrap();
    assert_eq!(cs.len(), 1);
    assert!(!cs[0].last_transition_time.as_deref().unwrap().is_empty());
}

#[test]
fn setting_the_same_condition_twice_is_idempotent() {
    let mut st = empty_status();
    set_condition_at(&mut st, "Ready", "True", "Reconciled", "ok", "t1".to_string());
    set_condition_at(&mut st, "Ready", "True", "Other", "other", "t2".to_string());
    let cs = st.conditions.as_ref().unwrap();
    assert_eq!(cs.len(), 1);
    assert_eq!(cs[0].reason.as_deref(), Some("Reconciled"));
    assert_eq!(cs[0].last_transition_time.as_deref(), Some("t1"));
}

#[test]
fn success_records_names_generation_and_ready() {
    let mut st = empty_status();
    record_success(&mut st, "ns-products-ingest".to_string(), "products".to_string(), Some(4));
    assert_eq!(st.kafka_topic.as_deref(), Some("ns-products-ingest"));
    assert_eq!(st.meilisearch_index.as_deref(), Some("products"));
    assert_eq!(st.observed_generation, Some(4));
    let cs = st.conditions.as_ref().unwrap();
    assert_eq!(cs[0].type_, "Ready");
    assert_eq!(cs[0].status, "True");
    assert_eq!(cs[0].reason.as_deref(), Some("Reconciled"));
    assert_eq!(cs[0].message.as_deref(), Some("All resources created successfully"));
}

#[test]
fn failure_records_not_ready_with_the_error() {
    let mut st = empty_status();
    record_success(&mut st, "t".to_string(), "i".to_string(), None);
    record_failure(&mut st, "Failed to create index: nope");
    assert_eq!(st.kafka_topic.as_deref(), Some("t"));
    let cs = st.conditions.as_ref().unwrap();
    assert_eq!(cs.len(), 1);
    assert_eq!(cs[0].status, "False");
    assert_eq!(cs[0].reason.as_deref(), Some("ReconcileError"));
    assert_eq!(cs[0].message.as_deref(), Some("Failed to create index: nope"));
}

#[test]
fn status_defaults_to_empty() {
    let st = status_or_default(None);
    assert!(st.conditions.is_none());
    assert!(st.kafka_topic.is_none());
    let mut existing = empty_status();
    existing.observed_generation = Some(2);
    assert_eq!(status_or_default(Some(existing)).observed_generation, Some(2));
}

#[test]
fn topic_and_index_names() {
    assert_eq!(ingest_topic_name("e2e-test-1234", "products"), "e2e-test-1234-products-ingest");
    assert_eq!(index_name("products"), "products");
    assert_eq!(FINALIZER, "searchindex.stratum.dev/cleanup");
}

#[test]
fn requeue_policies() {
    assert!(matches!(apply_action(true), ReconcileAction::Requeue { seconds: 300 }));
    assert!(matches!(apply_action(false), ReconcileAction::Requeue { seconds: 30 }));
    assert!(matches!(error_policy(), ReconcileAction::Requeue { seconds: 30 }));
    assert!(matches!(cleanup_action(), ReconcileAction::AwaitChange));
}

#[test]
fn apply_steps_run_in_order() {
    let mut step = ApplyStep::first();
    let mut seen = Vec::new();
    while !step.is_finished() {
        seen.push(match step {
            ApplyStep::EnsureTopic => "topic",
            ApplyStep::AwaitTopicReady => "ready",
            ApplyStep::CreateIndex => "index",
            ApplyStep::ConfigureIndex => "settings",
            ApplyStep::EnsureConsumer => "consumer",
            ApplyStep::Complete | ApplyStep::Failed => "finished",
        });
        step = step.advance(true);
    }
    assert_eq!(seen, vec!["topic", "ready", "index", "settings", "consumer"]);
    assert!(matches!(step, ApplyStep::Complete));
    assert!(matches!(step.advance(false), ApplyStep::Complete));
}

#[test]
fn apply_stops_at_the_first_failure() {
    let step = ApplyStep::first().advance(true).advance(true);
    assert!(matches!(step, ApplyStep::CreateIndex));
    let failed = step.advance(false);
    assert!(matches!(failed, ApplyStep::Failed));
    assert!(failed.is_finished());
    assert!(matches!(failed.advance(true), ApplyStep::Failed));
}

fn is_utc_timestamp(s: &str) -> bool {
    let b = s.as_bytes();
    s.ends_with("+00:00")
        && b.len() >= 25
        && b[4] == b'-'
        && b[7] == b'-'
        && b[10] == b'T'
        && b[13] == b':'
        && b[16] == b':'
}

#[test]
fn recorded_conditions_carry_an_rfc3339_time() {
    let mut st = empty_status();
    record_success(&mut st, "t".to_string(), "i".to_string(), None);
    let time = st.conditions.as_ref().unwrap()[0].last_transition_time.clone().unwrap();
    assert!(is_utc_timestamp(&time), "{}", time);
}

fn index_with(status: SearchIndexStatus) -> search_controller::SearchIndex {
    search_controller::SearchIndex {
        metadata: search_controller::crd::ObjectMeta {
            name: Some("products".to_string()),
            generate_name: None,
            namespace: Some("default".to_string()),
            uid: None,
            generation: Some(1),
        },
        spec: search_controller::SearchIndexSpec {
            kafka: search_controller::KafkaSpec::default(),
            connector: search_controller::ConnectorSpec::default(),
            index: search_controller::IndexSpec { fields: vec![], primary_key: None },
        },
        status: Some(status),
    }
}

#[test]
fn success_makes_ready_and_failure_makes_not_ready() {
    let mut st = empty_status();
    record_success(&mut st, "t".to_string(), "i".to_string(), Some(1));
    let si = index_with(st);
    assert!(si.is_ready());
    let mut st = si.status.unwrap();
    record_failure(&mut st, "boom");
    assert!(!index_with(st).is_ready());
}

#[test]
fn failure_with_duplicate_ready_conditions_can_stay_ready() {
    let mut st = empty_status();
    st.conditions = Some(vec![cond("Ready", "True", "t0"), cond("Ready", "True", "t0")]);
    record_failure(&mut st, "boom");
    assert!(index_with(st).is_ready());
}

#[test]
fn condition_types_stay_distinct() {
    let mut st = empty_status();
    set_condition_at(&mut st, "Ready", "True", "a", "a", "t1".to_string());
    set_condition_at(&mut st, "Synced", "True", "b", "b", "t1".to_string());
    set_condition_at(&mut st, "Ready", "False", "c", "c", "t2".to_string());
    set_condition_at(&mut st, "Synced", "True", "d", "d", "t3".to_string());
    let cs = st.conditions.unwrap();
    let types: Vec<&str> = cs.iter().map(|c| c.type_.as_str()).collect();
    assert_eq!(types, vec!["Ready", "Synced"]);
    assert_eq!(cs[0].status, "False");
    assert_eq!(cs[1].reason.as_deref(), Some("b"));
}
