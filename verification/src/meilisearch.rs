//! What the controller asks of Meilisearch: endpoints, request bodies, index settings, task
//! polling and error messages.
use vstd::prelude::*;

use crate::crd::FieldSpec;
use crate::polling::{
    lemma_poll_exhausts_when_never_ready, lemma_poll_bounded, lemma_poll_pending_until_end, lemma_poll_stops_at_first_answer, poll_run,
    PollObservation, PollOutcome,
};
use crate::text::{decimal, decimal_u64, trim_end, trim_end_char};

verus! {

/// Attempts made while waiting for a Meilisearch task.
pub const TASK_POLL_ATTEMPTS: u64 = 60;

/// Pause between two polls of a Meilisearch task, in milliseconds.
pub const TASK_POLL_PAUSE_MS: u64 = 100;

/// Primary key given to every index that the controller creates.
pub const DEFAULT_PRIMARY_KEY: &'static str = "id";

/// Addresses a Meilisearch server.
pub struct MeilisearchClient {
    base_url: String,
}

impl MeilisearchClient {
    /// The base URL, without trailing slashes.
    pub closed spec fn base(&self) -> Seq<char> {
        self.base_url@
    }

    /// A client for the server at `base_url`; trailing slashes are dropped.
    pub fn new(base_url: &str) -> (c: MeilisearchClient)
        ensures
            c.base() == trim_end(base_url@, '/'),
    {
        MeilisearchClient { base_url: trim_end_char(base_url, '/') }
    }

    /// The base URL, without trailing slashes.
    pub fn base_url(&self) -> (s: &str)
        ensures
            s@ == self.base(),
    {
        self.base_url.as_str()
    }

    /// `<base>/health`
    pub fn health_url(&self) -> (s: String)
        ensures
            s@ == self.base() + "/health"@,
    {
        self.base_url.clone().concat("/health")
    }

    /// `<base>/indexes`
    pub fn indexes_url(&self) -> (s: String)
        ensures
            s@ == self.base() + "/indexes"@,
    {
        self.base_url.clone().concat("/indexes")
    }

    /// `<base>/indexes/<uid>`
    pub fn index_url(&self, uid: &str) -> (s: String)
        ensures
            s@ == self.base() + "/indexes/"@ + uid@,
    {
        self.base_url.clone().concat("/indexes/").concat(uid)
    }

    /// `<base>/indexes/<uid>/settings`
    pub fn settings_url(&self, uid: &str) -> (s: String)
        ensures
            s@ == self.base() + "/indexes/"@ + uid@ + "/settings"@,
    {
        self.base_url.clone().concat("/indexes/").concat(uid).concat("/settings")
    }

    /// `<base>/tasks/<task_uid>`
    pub fn task_url(&self, task_uid: u64) -> (s: String)
        ensures
            s@ == self.base() + "/tasks/"@ + decimal(task_uid as nat),
    {
        let id = decimal_u64(task_uid);
        self.base_url.clone().concat("/tasks/").concat(id.as_str())
    }
}

/// `<meilisearch_url>/indexes/<index>/documents`, where the consumer posts its batches.
pub fn documents_url(meilisearch_url: &str, index: &str) -> (s: String)
    ensures
        s@ == meilisearch_url@ + "/indexes/"@ + index@ + "/documents"@,
{
    meilisearch_url.to_owned().concat("/indexes/").concat(index).concat("/documents")
}

/// Body of the request that creates an index.
pub struct CreateIndexRequest {
    pub uid: String,
    pub primary_key: Option<String>,
}

/// The request that creates index `uid` with that primary key.
pub fn create_index_request(uid: &str, primary_key: &str) -> (r: CreateIndexRequest)
    ensures
        r.uid@ == uid@,
        r.primary_key matches Some(k) && k@ == primary_key@,
{
    CreateIndexRequest { uid: uid.to_owned(), primary_key: Some(primary_key.to_owned()) }
}

/// Body of the request that sets the attributes of an index.
pub struct IndexSettings {
    pub searchable_attributes: Vec<String>,
    pub filterable_attributes: Vec<String>,
    pub sortable_attributes: Vec<String>,
}

/// A use that a field can be put to.
pub enum FieldRole {
    Searchable,
    Filterable,
    Sortable,
}

/// Whether the field is put to that use.
pub open spec fn has_role(f: FieldSpec, role: FieldRole) -> bool {
    match role {
        FieldRole::Searchable => f.searchable,
        FieldRole::Filterable => f.filterable,
        FieldRole::Sortable => f.sortable,
    }
}

/// The names of the fields put to that use, in the order of `fields`.
pub open spec fn names_with_role(fields: Seq<FieldSpec>, role: FieldRole) -> Seq<Seq<char>>
    decreases fields.len(),
{
    if fields.len() == 0 {
        Seq::empty()
    } else {
        let rest = names_with_role(fields.drop_last(), role);
        if has_role(fields.last(), role) {
            rest.push(fields.last().name@)
        } else {
            rest
        }
    }
}

spec fn field_name(f: FieldSpec) -> Seq<char> {
    f.name@
}

proof fn lemma_names_select(fields: Seq<FieldSpec>, role: FieldRole, pred: spec_fn(FieldSpec) -> bool)
    requires
        forall|f: FieldSpec| #[trigger] has_role(f, role) == pred(f),
    ensures
        names_with_role(fields, role) == fields.filter(pred).map_values(|f: FieldSpec| field_name(f)),
    decreases fields.len(),
{
    reveal(Seq::filter);
    let name = |f: FieldSpec| field_name(f);
    if fields.len() > 0 {
        let rest = fields.drop_last();
        let f = fields.last();
        lemma_names_select(rest, role, pred);
        assert(has_role(f, role) == pred(f));
        assert(rest.filter(pred).push(f).map_values(name) =~= rest.filter(pred).map_values(name).push(
            f.name@,
        ));
    } else {
        assert(fields.filter(pred).map_values(name) =~= Seq::<Seq<char>>::empty());
    }
}

/// The fields put to each use are exactly those whose flag for that use is set, whatever their
/// other flags, kept in field order; their names make the list for that use.
pub proof fn lemma_names_with_role_select_flags(fields: Seq<FieldSpec>)
    ensures
        names_with_role(fields, FieldRole::Searchable) == fields.filter(
            |f: FieldSpec| f.searchable,
        ).map_values(|f: FieldSpec| f.name@),
        names_with_role(fields, FieldRole::Filterable) == fields.filter(
            |f: FieldSpec| f.filterable,
        ).map_values(|f: FieldSpec| f.name@),
        names_with_role(fields, FieldRole::Sortable) == fields.filter(|f: FieldSpec| f.sortable).map_values(
            |f: FieldSpec| f.name@,
        ),
{
    let p1 = |f: FieldSpec| f.searchable;
    let p2 = |f: FieldSpec| f.filterable;
    let p3 = |f: FieldSpec| f.sortable;
    lemma_names_select(fields, FieldRole::Searchable, p1);
    lemma_names_select(fields, FieldRole::Filterable, p2);
    lemma_names_select(fields, FieldRole::Sortable, p3);
    let name = |f: FieldSpec| field_name(f);
    let name2 = |f: FieldSpec| f.name@;
    assert(fields.filter(p1).map_values(name) =~= fields.filter(p1).map_values(name2));
    assert(fields.filter(p2).map_values(name) =~= fields.filter(p2).map_values(name2));
    assert(fields.filter(p3).map_values(name) =~= fields.filter(p3).map_values(name2));
}

/// The searchable attributes: the searchable fields, or `*` (every field) when there is none.
pub open spec fn searchable_attributes(fields: Seq<FieldSpec>) -> Seq<Seq<char>> {
    if names_with_role(fields, FieldRole::Searchable).len() == 0 {
        seq!["*"@]
    } else {
        names_with_role(fields, FieldRole::Searchable)
    }
}

fn field_has_role(f: &FieldSpec, role: &FieldRole) -> (r: bool)
    ensures
        r == has_role(*f, *role),
{
    match role {
        FieldRole::Searchable => f.searchable,
        FieldRole::Filterable => f.filterable,
        FieldRole::Sortable => f.sortable,
    }
}

/// The names of the fields put to `role`, in order.
pub fn field_names_with_role(fields: &[FieldSpec], role: FieldRole) -> (names: Vec<String>)
    ensures
        names.deep_view() == names_with_role(fields@, role),
{
    let mut names: Vec<String> = Vec::new();
    let n = fields.len();
    let mut i: usize = 0;
    while i < n
        invariant
            n == fields@.len(),
            i <= n,
            names.deep_view() == names_with_role(fields@.take(i as int), role),
        decreases n - i,
    {
        let ghost before = names.deep_view();
        assert(fields@.take(i as int + 1).drop_last() =~= fields@.take(i as int));
        if field_has_role(&fields[i], &role) {
            names.push(fields[i].name.clone());
            assert(names.deep_view() =~= before.push(fields@[i as int].name@));
        }
        i = i + 1;
    }
    assert(fields@.take(n as int) =~= fields@);
    names
}

/// The settings for an index whose documents have `fields`: the searchable attributes (or `*`
/// when no field is searchable), the filterable ones and the sortable ones, each in field order.
pub fn index_settings(fields: &[FieldSpec]) -> (s: IndexSettings)
    ensures
        s.searchable_attributes.deep_view() == searchable_attributes(fields@),
        s.filterable_attributes.deep_view() == names_with_role(fields@, FieldRole::Filterable),
        s.sortable_attributes.deep_view() == names_with_role(fields@, FieldRole::Sortable),
        s.filterable_attributes.deep_view() == fields@.filter(|f: FieldSpec| f.filterable).map_values(
            |f: FieldSpec| f.name@,
        ),
        s.sortable_attributes.deep_view() == fields@.filter(|f: FieldSpec| f.sortable).map_values(
            |f: FieldSpec| f.name@,
        ),
        fields@.filter(|f: FieldSpec| f.searchable).len() > 0 ==> s.searchable_attributes.deep_view()
            == fields@.filter(|f: FieldSpec| f.searchable).map_values(|f: FieldSpec| f.name@),
{
    proof {
        lemma_names_with_role_select_flags(fields@);
    }
    let searchable = field_names_with_role(fields, FieldRole::Searchable);
    let filterable = field_names_with_role(fields, FieldRole::Filterable);
    let sortable = field_names_with_role(fields, FieldRole::Sortable);
    let searchable_attributes = if searchable.len() == 0 {
        let mut every: Vec<String> = Vec::new();
        every.push("*".to_owned());
        assert(every.deep_view() =~= seq!["*"@]);
        every
    } else {
        searchable
    };
    IndexSettings {
        searchable_attributes,
        filterable_attributes: filterable,
        sortable_attributes: sortable,
    }
}

/// What one poll of a task tells: `reply` is the task's `status` field when the server answered
/// with success, and `None` when it did not.
pub open spec fn task_observation_spec(reply: Option<Seq<char>>) -> PollObservation {
    match reply {
        Some(s) => if s == "succeeded"@ {
            PollObservation::Ready
        } else if s == "failed"@ {
            PollObservation::Failed
        } else {
            PollObservation::Pending { pause_ms: TASK_POLL_PAUSE_MS }
        },
        None => PollObservation::Pending { pause_ms: TASK_POLL_PAUSE_MS },
    }
}

/// Classifies one poll of a task: `succeeded` ends the wait, `failed` aborts it, anything else
/// (or an unsuccessful reply) means polling again after a pause.
pub fn task_observation(reply: Option<&str>) -> (obs: PollObservation)
    ensures
        obs == task_observation_spec(match reply {
            Some(s) => Some(s@),
            None => None,
        }),
{
    match reply {
        Some(s) => {
            let status = s.to_owned();
            if status == "succeeded".to_owned() {
                PollObservation::Ready
            } else if status == "failed".to_owned() {
                PollObservation::Failed
            } else {
                PollObservation::Pending { pause_ms: TASK_POLL_PAUSE_MS }
            }
        },
        None => PollObservation::Pending { pause_ms: TASK_POLL_PAUSE_MS },
    }
}

/// A poll answer that ends the wait: `succeeded` or `failed`.
pub open spec fn task_settled(reply: Option<Seq<char>>) -> bool {
    reply == Some("succeeded"@) || reply == Some("failed"@)
}

/// The wait for a task whose successive polls answer `replies(i)` (the task's status when the
/// server answered with success, `None` otherwise).
pub open spec fn task_wait(replies: spec_fn(nat) -> Option<Seq<char>>) -> (PollOutcome, nat) {
    poll_run(TASK_POLL_ATTEMPTS as nat, |i: nat| task_observation_spec(replies(i)), 0)
}

/// Waiting for a task ends at the first of at most sixty polls that answers `succeeded`
/// (success) or `failed` (failure); unsuccessful answers and other statuses are polled again,
/// and when none of the sixty polls settles the task the wait times out after exactly sixty.
pub proof fn lemma_task_wait(replies: spec_fn(nat) -> Option<Seq<char>>, k: nat)
    ensures
        k < TASK_POLL_ATTEMPTS && task_settled(replies(k)) && (forall|j: nat|
            j < k ==> !task_settled(#[trigger] replies(j))) ==> task_wait(replies).1 == k + 1 && (
        task_wait(replies).0 == if replies(k) == Some("succeeded"@) {
            PollOutcome::Succeeded
        } else {
            PollOutcome::Failed
        }),
        (forall|j: nat| j < TASK_POLL_ATTEMPTS ==> !task_settled(#[trigger] replies(j)))
            ==> task_wait(replies) == (PollOutcome::Exhausted, TASK_POLL_ATTEMPTS as nat),
{
    let f = |i: nat| task_observation_spec(replies(i));
    let limit = TASK_POLL_ATTEMPTS as nat;
    if k < limit && task_settled(replies(k)) && (forall|j: nat|
        j < k ==> !task_settled(#[trigger] replies(j))) {
        assert forall|j: nat| 0 <= j < k implies #[trigger] f(j) is Pending by {
            assert(!task_settled(replies(j)));
        }
        lemma_poll_stops_at_first_answer(limit, f, 0, k);
    }
    if forall|j: nat| j < limit ==> !task_settled(#[trigger] replies(j)) {
        assert forall|j: nat| 0 <= j < limit implies #[trigger] f(j) is Pending by {
            assert(!task_settled(replies(j)));
        }
        lemma_poll_exhausts_when_never_ready(limit, f, 0);
    }
}

/// Waiting for a task always ends, after at least one and at most sixty polls; every poll
/// before the last one did not settle the task and was followed by one pause of
/// `TASK_POLL_PAUSE_MS`, and when the wait times out none of the sixty polls settled it, each
/// being followed by its pause; so the wait makes at most sixty polls and sixty pauses.
pub proof fn lemma_task_wait_bounded(replies: spec_fn(nat) -> Option<Seq<char>>)
    ensures
        1 <= task_wait(replies).1 <= TASK_POLL_ATTEMPTS,
        forall|j: nat| j + 1 < task_wait(replies).1 ==> !task_settled(#[trigger] replies(j)),
        task_wait(replies).0 == PollOutcome::Exhausted ==> forall|j: nat|
            j < task_wait(replies).1 ==> !task_settled(#[trigger] replies(j)),
{
    let f = |i: nat| task_observation_spec(replies(i));
    let limit = TASK_POLL_ATTEMPTS as nat;
    lemma_poll_bounded(limit, f, 0);
    lemma_poll_pending_until_end(limit, f, 0);
    assert forall|j: nat| j + 1 < task_wait(replies).1 implies !task_settled(
        #[trigger] replies(j),
    ) by {
        assert(f(j) is Pending);
    }
    if task_wait(replies).0 == PollOutcome::Exhausted {
        assert forall|j: nat| j < task_wait(replies).1 implies !task_settled(
            #[trigger] replies(j),
        ) by {
            assert(f(j) is Pending);
        }
    }
}

/// Why a Meilisearch operation failed.
#[derive(Debug)]
pub enum MeilisearchError {
    /// Creating an index was refused; the server's reply body.
    CreateIndexFailed(String),
    /// Setting the attributes of an index was refused; the server's reply body.
    ConfigureIndexFailed(String),
    /// Deleting an index was refused; the server's reply body.
    DeleteIndexFailed(String),
    /// The task with this uid failed.
    TaskFailed(u64),
    /// The task with this uid did not finish in time.
    TaskTimeout(u64),
    /// Posting a batch of documents was refused; the server's reply body.
    IndexDocumentsFailed(String),
}

impl MeilisearchError {
    /// The text of the error.
    pub open spec fn text(&self) -> Seq<char> {
        match self {
            MeilisearchError::CreateIndexFailed(body) => "Failed to create index: "@ + body@,
            MeilisearchError::ConfigureIndexFailed(body) => "Failed to configure index: "@ + body@,
            MeilisearchError::DeleteIndexFailed(body) => "Failed to delete index: "@ + body@,
            MeilisearchError::TaskFailed(uid) => "Meilisearch task "@ + decimal(*uid as nat)
                + " failed"@,
            MeilisearchError::TaskTimeout(uid) => "Timeout waiting for Meilisearch task "@
                + decimal(*uid as nat),
            MeilisearchError::IndexDocumentsFailed(body) => "Failed to index documents: "@
                + body@,
        }
    }

    /// Renders the error as text.
    pub fn message(&self) -> (s: String)
        ensures
            s@ == self.text(),
    {
        match self {
            MeilisearchError::CreateIndexFailed(body) => "Failed to create index: ".to_owned().concat(
                body.as_str(),
            ),
            MeilisearchError::ConfigureIndexFailed(body) => "Failed to configure index: ".to_owned().concat(
                body.as_str(),
            ),
            MeilisearchError::DeleteIndexFailed(body) => "Failed to delete index: ".to_owned().concat(
                body.as_str(),
            ),
            MeilisearchError::TaskFailed(uid) => {
                let id = decimal_u64(*uid);
                "Meilisearch task ".to_owned().concat(id.as_str()).concat(" failed")
            },
            MeilisearchError::TaskTimeout(uid) => {
                let id = decimal_u64(*uid);
                "Timeout waiting for Meilisearch task ".to_owned().concat(id.as_str())
            },
            MeilisearchError::IndexDocumentsFailed(body) => "Failed to index documents: ".to_owned().concat(
                body.as_str(),
            ),
        }
    }
}

} // verus!
