//! The decisions of the readiness checks of a topic and of receiving a message.
use vstd::prelude::*;

use crate::kafka::config::DEFAULT_BOOTSTRAP_SERVERS;
use crate::kafka::topic::{KafkaTopic, READINESS_PAUSE_MS};
use crate::polling::{
    lemma_poll_exhausts_when_never_ready, lemma_poll_stops_at_first_answer, poll_run,
    PollObservation, PollOutcome,
};

verus! {

/// Attempts of each readiness layer when no timeout is given.
pub const DEFAULT_LAYER_ATTEMPTS: u64 = 30;

/// Attempts to receive one message.
pub const RECEIVE_ATTEMPTS: u64 = 30;

/// The time that `RECEIVE_ATTEMPTS` attempts take at most, as reported when they all fail.
pub const RECEIVE_TIMEOUT_SECS: u64 = 60;

/// Pause after a receive error, in milliseconds.
pub const RECEIVE_ERROR_PAUSE_MS: u64 = 1000;

/// How one wait for a message ended.
pub enum ReceiveOutcome {
    /// A message arrived.
    Message,
    /// The client reported an error.
    Error,
    /// Nothing arrived within the wait.
    Timeout,
}

/// One topic of a metadata answer of the broker.
pub struct TopicReport {
    pub name: String,
    /// The broker attached an error to this topic (such as an unknown topic).
    pub has_error: bool,
}

/// The answer names `topic` without an error.
pub open spec fn reports_topic(reports: Seq<TopicReport>, topic: Seq<char>) -> bool {
    exists|i: int| 0 <= i < reports.len() && reports[i].name@ == topic && !reports[i].has_error
}

/// The observation of one metadata request: `None` when the request failed.
pub open spec fn metadata_observation_spec(
    topic: Seq<char>,
    reports: Option<Seq<TopicReport>>,
) -> PollObservation {
    if reports matches Some(r) && reports_topic(r, topic) {
        PollObservation::Ready
    } else {
        PollObservation::Pending { pause_ms: READINESS_PAUSE_MS }
    }
}

/// One metadata request for `topic`: ready when the broker reports that topic without an
/// error; a failed request (`None`), an answer without it, or one where it carries an error means
/// asking again after a second.
pub fn metadata_observation(topic: &str, reports: Option<&Vec<TopicReport>>) -> (obs:
    PollObservation)
    ensures
        obs == metadata_observation_spec(
            topic@,
            match reports {
                Some(r) => Some(r@),
                None => None,
            },
        ),
{
    match reports {
        Some(rs) => if names_topic(topic, rs) {
            PollObservation::Ready
        } else {
            PollObservation::Pending { pause_ms: READINESS_PAUSE_MS }
        },
        None => PollObservation::Pending { pause_ms: READINESS_PAUSE_MS },
    }
}

fn names_topic(topic: &str, rs: &Vec<TopicReport>) -> (r: bool)
    ensures
        r == reports_topic(rs@, topic@),
{
    let wanted = topic.to_owned();
    let n = rs.len();
    let mut i: usize = 0;
    while i < n
        invariant
            n == rs@.len(),
            i <= n,
            wanted@ == topic@,
            forall|j: int|
                0 <= j < i ==> !(#[trigger] rs@[j].name@ == topic@ && !rs@[j].has_error),
        decreases n - i,
    {
        assert(rs@[i as int] == rs[i as int]);
        if rs[i].name == wanted && !rs[i].has_error {
            assert(reports_topic(rs@, topic@));
            return true;
        }
        i = i + 1;
    }
    false
}

/// The observation of one receive by the coordinator probe.
pub open spec fn coordinator_observation_spec(outcome: ReceiveOutcome) -> PollObservation {
    match outcome {
        ReceiveOutcome::Error => PollObservation::Pending { pause_ms: READINESS_PAUSE_MS },
        _ => PollObservation::Ready,
    }
}

/// One receive by the coordinator probe: a message or a quiet timeout both show that the group
/// coordinator answers; an error means trying again after a second.
pub fn coordinator_observation(outcome: ReceiveOutcome) -> (obs: PollObservation)
    ensures
        obs == coordinator_observation_spec(outcome),
{
    match outcome {
        ReceiveOutcome::Message => PollObservation::Ready,
        ReceiveOutcome::Timeout => PollObservation::Ready,
        ReceiveOutcome::Error => PollObservation::Pending { pause_ms: READINESS_PAUSE_MS },
    }
}

/// The observation of one wait of a consumer for a message.
pub open spec fn receive_observation_spec(outcome: ReceiveOutcome) -> PollObservation {
    match outcome {
        ReceiveOutcome::Message => PollObservation::Ready,
        ReceiveOutcome::Error => PollObservation::Pending { pause_ms: RECEIVE_ERROR_PAUSE_MS },
        ReceiveOutcome::Timeout => PollObservation::Pending { pause_ms: 0 },
    }
}

/// One wait of a consumer for a message: a message ends the wait; after an error the consumer
/// pauses a second, after a timeout it waits again at once.
pub fn receive_observation(outcome: ReceiveOutcome) -> (obs: PollObservation)
    ensures
        obs == receive_observation_spec(outcome),
{
    match outcome {
        ReceiveOutcome::Message => PollObservation::Ready,
        ReceiveOutcome::Error => PollObservation::Pending { pause_ms: RECEIVE_ERROR_PAUSE_MS },
        ReceiveOutcome::Timeout => PollObservation::Pending { pause_ms: 0 },
    }
}

/// The custom-resource wait for a topic whose successive reads give `reads(i)` (`None` when the
/// read failed), allowed `limit` attempts.
pub open spec fn resource_wait(limit: nat, reads: spec_fn(nat) -> Option<KafkaTopic>) -> (
    PollOutcome,
    nat,
) {
    poll_run(
        limit,
        |i: nat|
            if reads(i) matches Some(t) && t.ready() {
                PollObservation::Ready
            } else {
                PollObservation::Pending { pause_ms: READINESS_PAUSE_MS }
            },
        0,
    )
}

/// The custom-resource wait succeeds at the first read, within the limit, that finds the topic
/// ready (read errors are retried); when no read within the limit does, it gives up after
/// exactly `limit` reads.
pub proof fn lemma_resource_wait(limit: nat, reads: spec_fn(nat) -> Option<KafkaTopic>, k: nat)
    ensures
        k < limit && (reads(k) matches Some(t) && t.ready()) && (forall|j: nat|
            j < k ==> !(#[trigger] reads(j) matches Some(t) && t.ready())) ==> resource_wait(
            limit,
            reads,
        ) == (PollOutcome::Succeeded, k + 1),
        (forall|j: nat| j < limit ==> !(#[trigger] reads(j) matches Some(t) && t.ready()))
            ==> resource_wait(limit, reads) == (PollOutcome::Exhausted, limit),
{
    let f = |i: nat|
        if reads(i) matches Some(t) && t.ready() {
            PollObservation::Ready
        } else {
            PollObservation::Pending { pause_ms: READINESS_PAUSE_MS }
        };
    if k < limit && (reads(k) matches Some(t) && t.ready()) && (forall|j: nat|
        j < k ==> !(#[trigger] reads(j) matches Some(t) && t.ready())) {
        assert forall|j: nat| 0 <= j < k implies #[trigger] f(j) is Pending by {}
        lemma_poll_stops_at_first_answer(limit, f, 0, k);
    }
    if forall|j: nat| j < limit ==> !(#[trigger] reads(j) matches Some(t) && t.ready()) {
        assert forall|j: nat| 0 <= j < limit implies #[trigger] f(j) is Pending by {}
        lemma_poll_exhausts_when_never_ready(limit, f, 0);
    }
}

/// The metadata wait for `topic` whose successive requests answer `answers(i)`.
pub open spec fn metadata_wait(
    limit: nat,
    topic: Seq<char>,
    answers: spec_fn(nat) -> Option<Seq<TopicReport>>,
) -> (PollOutcome, nat) {
    poll_run(limit, |i: nat| metadata_observation_spec(topic, answers(i)), 0)
}

/// The metadata wait succeeds at the first answer, within the limit, that reports the topic
/// without an error; when none does, it gives up after exactly `limit` requests.
pub proof fn lemma_metadata_wait(
    limit: nat,
    topic: Seq<char>,
    answers: spec_fn(nat) -> Option<Seq<TopicReport>>,
    k: nat,
)
    ensures
        k < limit && (answers(k) matches Some(r) && reports_topic(r, topic)) && (forall|j: nat|
            j < k ==> !(#[trigger] answers(j) matches Some(r) && reports_topic(r, topic)))
            ==> metadata_wait(limit, topic, answers) == (PollOutcome::Succeeded, k + 1),
        (forall|j: nat| j < limit ==> !(#[trigger] answers(j) matches Some(r) && reports_topic(r, topic)))
            ==> metadata_wait(limit, topic, answers) == (PollOutcome::Exhausted, limit),
{
    let f = |i: nat| metadata_observation_spec(topic, answers(i));
    if k < limit && (answers(k) matches Some(r) && reports_topic(r, topic)) && (forall|j: nat|
        j < k ==> !(#[trigger] answers(j) matches Some(r) && reports_topic(r, topic))) {
        assert forall|j: nat| 0 <= j < k implies #[trigger] f(j) is Pending by {}
        lemma_poll_stops_at_first_answer(limit, f, 0, k);
    }
    if forall|j: nat| j < limit ==> !(#[trigger] answers(j) matches Some(r) && reports_topic(r, topic)) {
        assert forall|j: nat| 0 <= j < limit implies #[trigger] f(j) is Pending by {}
        lemma_poll_exhausts_when_never_ready(limit, f, 0);
    }
}

/// The coordinator wait whose successive receives end as `outcomes(i)`.
pub open spec fn coordinator_wait(limit: nat, outcomes: spec_fn(nat) -> ReceiveOutcome) -> (
    PollOutcome,
    nat,
) {
    poll_run(limit, |i: nat| coordinator_observation_spec(outcomes(i)), 0)
}

/// The coordinator wait succeeds at the first receive, within the limit, that ends with a
/// message or a quiet timeout; when every receive within the limit fails, it gives up after
/// exactly `limit` receives (none when `limit` is zero).
pub proof fn lemma_coordinator_wait(limit: nat, outcomes: spec_fn(nat) -> ReceiveOutcome, k: nat)
    ensures
        k < limit && !(outcomes(k) is Error) && (forall|j: nat|
            j < k ==> #[trigger] outcomes(j) is Error) ==> coordinator_wait(limit, outcomes) == (
            PollOutcome::Succeeded,
            k + 1,
        ),
        (forall|j: nat| j < limit ==> #[trigger] outcomes(j) is Error) ==> coordinator_wait(
            limit,
            outcomes,
        ) == (PollOutcome::Exhausted, limit),
{
    let f = |i: nat| coordinator_observation_spec(outcomes(i));
    if k < limit && !(outcomes(k) is Error) && (forall|j: nat|
        j < k ==> #[trigger] outcomes(j) is Error) {
        assert forall|j: nat| 0 <= j < k implies #[trigger] f(j) is Pending by {}
        lemma_poll_stops_at_first_answer(limit, f, 0, k);
    }
    if forall|j: nat| j < limit ==> #[trigger] outcomes(j) is Error {
        assert forall|j: nat| 0 <= j < limit implies #[trigger] f(j) is Pending by {}
        lemma_poll_exhausts_when_never_ready(limit, f, 0);
    }
}

/// The receive wait whose successive waits end as `outcomes(i)`.
pub open spec fn receive_wait(outcomes: spec_fn(nat) -> ReceiveOutcome) -> (PollOutcome, nat) {
    poll_run(RECEIVE_ATTEMPTS as nat, |i: nat| receive_observation_spec(outcomes(i)), 0)
}

/// Receiving returns the first message among the first thirty waits; when none of them brings
/// a message it gives up after exactly thirty waits.
pub proof fn lemma_receive_wait(outcomes: spec_fn(nat) -> ReceiveOutcome, k: nat)
    ensures
        k < RECEIVE_ATTEMPTS && outcomes(k) is Message && (forall|j: nat|
            j < k ==> !(#[trigger] outcomes(j) is Message)) ==> receive_wait(outcomes) == (
            PollOutcome::Succeeded,
            k + 1,
        ),
        (forall|j: nat| j < RECEIVE_ATTEMPTS ==> !(#[trigger] outcomes(j) is Message))
            ==> receive_wait(outcomes) == (PollOutcome::Exhausted, RECEIVE_ATTEMPTS as nat),
{
    let f = |i: nat| receive_observation_spec(outcomes(i));
    let limit = RECEIVE_ATTEMPTS as nat;
    if k < limit && outcomes(k) is Message && (forall|j: nat|
        j < k ==> !(#[trigger] outcomes(j) is Message)) {
        assert forall|j: nat| 0 <= j < k implies #[trigger] f(j) is Pending by {}
        lemma_poll_stops_at_first_answer(limit, f, 0, k);
    }
    if forall|j: nat| j < limit ==> !(#[trigger] outcomes(j) is Message) {
        assert forall|j: nat| 0 <= j < limit implies #[trigger] f(j) is Pending by {}
        lemma_poll_exhausts_when_never_ready(limit, f, 0);
    }
}

/// The layers of the readiness check of a topic, in the order in which they are checked.
pub enum ReadinessLayer {
    /// The Strimzi custom resource reports `Ready=True`.
    Resource,
    /// The broker reports the topic in its metadata.
    BrokerMetadata,
    /// The group coordinator answers a subscribed consumer.
    GroupCoordinator,
    /// Every layer passed.
    Complete,
    /// A layer failed; no later layer is checked.
    Failed,
}

impl ReadinessLayer {
    /// The layer checked after `self` has passed.
    pub open spec fn following(self) -> ReadinessLayer {
        match self {
            ReadinessLayer::Resource => ReadinessLayer::BrokerMetadata,
            ReadinessLayer::BrokerMetadata => ReadinessLayer::GroupCoordinator,
            ReadinessLayer::GroupCoordinator => ReadinessLayer::Complete,
            ReadinessLayer::Complete => ReadinessLayer::Complete,
            ReadinessLayer::Failed => ReadinessLayer::Failed,
        }
    }

    /// The state after checking `self` with that result.
    pub open spec fn after(self, passed: bool) -> ReadinessLayer {
        if self is Complete || self is Failed {
            self
        } else if passed {
            self.following()
        } else {
            ReadinessLayer::Failed
        }
    }

    /// The first layer checked.
    pub fn first() -> (l: ReadinessLayer)
        ensures
            l == ReadinessLayer::Resource,
    {
        ReadinessLayer::Resource
    }

    /// The state after checking `self`: the next layer when it passed, `Failed` when it did not.
    pub fn advance(&self, passed: bool) -> (l: ReadinessLayer)
        ensures
            l == self.after(passed),
    {
        match self {
            ReadinessLayer::Complete => ReadinessLayer::Complete,
            ReadinessLayer::Failed => ReadinessLayer::Failed,
            _ => if !passed {
                ReadinessLayer::Failed
            } else {
                match self {
                    ReadinessLayer::Resource => ReadinessLayer::BrokerMetadata,
                    ReadinessLayer::BrokerMetadata => ReadinessLayer::GroupCoordinator,
                    _ => ReadinessLayer::Complete,
                }
            },
        }
    }

    /// Whether the check is over, passed or failed.
    pub fn is_finished(&self) -> (r: bool)
        ensures
            r == (self is Complete || self is Failed),
    {
        match self {
            ReadinessLayer::Complete => true,
            ReadinessLayer::Failed => true,
            _ => false,
        }
    }

    /// The attempts allowed to this layer, one per second of its timeout.
    pub fn attempt_limit(&self, options: &ReadinessOptions) -> (n: u64)
        ensures
            self is Resource ==> n == options.k8s_timeout_secs,
            self is BrokerMetadata ==> n == options.metadata_timeout_secs,
            self is GroupCoordinator ==> n == options.coordinator_timeout_secs,
            (self is Complete || self is Failed) ==> n == 0,
    {
        match self {
            ReadinessLayer::Resource => options.k8s_timeout_secs,
            ReadinessLayer::BrokerMetadata => options.metadata_timeout_secs,
            ReadinessLayer::GroupCoordinator => options.coordinator_timeout_secs,
            _ => 0,
        }
    }
}

/// Where the readiness check finds the broker and how long each layer may take.
pub struct ReadinessOptions {
    pub bootstrap_servers: String,
    pub k8s_timeout_secs: u64,
    pub metadata_timeout_secs: u64,
    pub coordinator_timeout_secs: u64,
}

/// The options of the default readiness check, given the value of `KAFKA_BOOTSTRAP_SERVERS`:
/// that value or the default servers, and thirty seconds for each layer.
pub fn default_readiness_options(env_value: Option<String>) -> (o: ReadinessOptions)
    ensures
        env_value matches Some(v) ==> o.bootstrap_servers@ == v@,
        env_value is None ==> o.bootstrap_servers@ == DEFAULT_BOOTSTRAP_SERVERS@,
        o.k8s_timeout_secs == 30,
        o.metadata_timeout_secs == 30,
        o.coordinator_timeout_secs == 30,
{
    ReadinessOptions {
        bootstrap_servers: crate::kafka::config::bootstrap_servers_from(env_value),
        k8s_timeout_secs: DEFAULT_LAYER_ATTEMPTS,
        metadata_timeout_secs: DEFAULT_LAYER_ATTEMPTS,
        coordinator_timeout_secs: DEFAULT_LAYER_ATTEMPTS,
    }
}

/// The state reached after checking layers whose results are `passed(0)`, `passed(1)`, ...,
/// `k` times from the first layer.
pub open spec fn layers_after(passed: spec_fn(nat) -> bool, k: nat) -> ReadinessLayer
    decreases k,
{
    if k == 0 {
        ReadinessLayer::Resource
    } else {
        layers_after(passed, (k - 1) as nat).after(passed((k - 1) as nat))
    }
}

/// A topic is declared ready exactly when the custom resource, then the broker metadata, then
/// the group coordinator pass; the first layer that fails ends the check as failed, and no later
/// layer is checked.
pub proof fn lemma_readiness_layers(passed: spec_fn(nat) -> bool)
    ensures
        passed(0) && passed(1) && passed(2) ==> layers_after(passed, 3) == ReadinessLayer::Complete,
        !passed(0) ==> layers_after(passed, 1) == ReadinessLayer::Failed,
        passed(0) && !passed(1) ==> layers_after(passed, 2) == ReadinessLayer::Failed,
        passed(0) && passed(1) && !passed(2) ==> layers_after(passed, 3) == ReadinessLayer::Failed,
        layers_after(passed, 1) is Resource == false,
        passed(0) ==> layers_after(passed, 1) == ReadinessLayer::BrokerMetadata,
        passed(0) && passed(1) ==> layers_after(passed, 2) == ReadinessLayer::GroupCoordinator,
        forall|k: nat| k >= 3 ==> (#[trigger] layers_after(passed, k) is Complete || layers_after(passed, k) is Failed),
{
    reveal_with_fuel(layers_after, 4);
    assert(layers_after(passed, 1) == ReadinessLayer::Resource.after(passed(0)));
    assert(layers_after(passed, 2) == layers_after(passed, 1).after(passed(1)));
    assert(layers_after(passed, 3) == layers_after(passed, 2).after(passed(2)));
    assert forall|k: nat| k >= 3 implies (#[trigger] layers_after(passed, k) is Complete
        || layers_after(passed, k) is Failed) by {
        lemma_layers_settle(passed, k);
    }
}

proof fn lemma_layers_settle(passed: spec_fn(nat) -> bool, k: nat)
    requires
        k >= 3,
    ensures
        layers_after(passed, k) is Complete || layers_after(passed, k) is Failed,
    decreases k,
{
    if k > 3 {
        lemma_layers_settle(passed, (k - 1) as nat);
    } else {
        reveal_with_fuel(layers_after, 4);
        assert(layers_after(passed, 1) == ReadinessLayer::Resource.after(passed(0)));
        assert(layers_after(passed, 2) == layers_after(passed, 1).after(passed(1)));
    }
}

} // verus!
