//! The librdkafka settings of each Kafka client.
use vstd::prelude::*;

use crate::text::KeyValue;

verus! {

/// Settings of a consumer that reads `group_id`'s share from the earliest offset, commits
/// explicitly and reconnects quickly.
pub open spec fn consumer_settings_spec(bootstrap: Seq<char>, group_id: Seq<char>) -> Seq<
    (Seq<char>, Seq<char>),
> {
    seq![
        ("bootstrap.servers"@, bootstrap),
        ("group.id"@, group_id),
        ("auto.offset.reset"@, "earliest"@),
        ("enable.auto.commit"@, "false"@),
        ("reconnect.backoff.ms"@, "50"@),
        ("reconnect.backoff.max.ms"@, "1000"@),
    ]
}

/// Settings of a consumer that reads `group_id`'s share from the earliest offset, commits
/// explicitly and reconnects quickly.
pub fn consumer_settings(bootstrap_servers: &str, group_id: &str) -> (s: Vec<KeyValue>)
    ensures
        s.deep_view() == consumer_settings_spec(bootstrap_servers@, group_id@),
{
    let mut s: Vec<KeyValue> = Vec::new();
    s.push(KeyValue::new("bootstrap.servers", bootstrap_servers));
    s.push(KeyValue::new("group.id", group_id));
    s.push(KeyValue::new("auto.offset.reset", "earliest"));
    s.push(KeyValue::new("enable.auto.commit", "false"));
    s.push(KeyValue::new("reconnect.backoff.ms", "50"));
    s.push(KeyValue::new("reconnect.backoff.max.ms", "1000"));
    assert(s.deep_view() =~= consumer_settings_spec(bootstrap_servers@, group_id@));
    s
}

/// Settings of a producer whose messages time out after five seconds.
pub fn producer_settings(bootstrap_servers: &str) -> (s: Vec<KeyValue>)
    ensures
        s.deep_view() == seq![
            ("bootstrap.servers"@, bootstrap_servers@),
            ("message.timeout.ms"@, "5000"@),
        ],
{
    let mut s: Vec<KeyValue> = Vec::new();
    s.push(KeyValue::new("bootstrap.servers", bootstrap_servers));
    s.push(KeyValue::new("message.timeout.ms", "5000"));
    assert(s.deep_view() =~= seq![
        ("bootstrap.servers"@, bootstrap_servers@),
        ("message.timeout.ms"@, "5000"@),
    ]);
    s
}

/// Settings of the consumer that asks the broker for a topic's metadata.
pub fn metadata_probe_settings(bootstrap_servers: &str) -> (s: Vec<KeyValue>)
    ensures
        s.deep_view() == seq![
            ("bootstrap.servers"@, bootstrap_servers@),
            ("group.id"@, "metadata-checker"@),
        ],
{
    let mut s: Vec<KeyValue> = Vec::new();
    s.push(KeyValue::new("bootstrap.servers", bootstrap_servers));
    s.push(KeyValue::new("group.id", "metadata-checker"));
    assert(s.deep_view() =~= seq![
        ("bootstrap.servers"@, bootstrap_servers@),
        ("group.id"@, "metadata-checker"@),
    ]);
    s
}

/// Settings of the consumer that checks that the group coordinator answers.
pub fn coordinator_probe_settings(bootstrap_servers: &str) -> (s: Vec<KeyValue>)
    ensures
        s.deep_view() == seq![
            ("bootstrap.servers"@, bootstrap_servers@),
            ("group.id"@, "coordinator-checker"@),
            ("session.timeout.ms"@, "6000"@),
            ("auto.offset.reset"@, "earliest"@),
            ("reconnect.backoff.ms"@, "50"@),
            ("reconnect.backoff.max.ms"@, "1000"@),
        ],
{
    let mut s: Vec<KeyValue> = Vec::new();
    s.push(KeyValue::new("bootstrap.servers", bootstrap_servers));
    s.push(KeyValue::new("group.id", "coordinator-checker"));
    s.push(KeyValue::new("session.timeout.ms", "6000"));
    s.push(KeyValue::new("auto.offset.reset", "earliest"));
    s.push(KeyValue::new("reconnect.backoff.ms", "50"));
    s.push(KeyValue::new("reconnect.backoff.max.ms", "1000"));
    assert(s.deep_view() =~= seq![
        ("bootstrap.servers"@, bootstrap_servers@),
        ("group.id"@, "coordinator-checker"@),
        ("session.timeout.ms"@, "6000"@),
        ("auto.offset.reset"@, "earliest"@),
        ("reconnect.backoff.ms"@, "50"@),
        ("reconnect.backoff.max.ms"@, "1000"@),
    ]);
    s
}

} // verus!
