//! Bounded polling: the decisions of every wait-and-retry loop (topic readiness, Meilisearch
//! tasks, receiving a message).
use vstd::prelude::*;

verus! {

/// What one attempt found out.
pub enum PollObservation {
    /// The awaited state holds.
    Ready,
    /// The awaited state can no longer be reached.
    Failed,
    /// Not yet; pause this many milliseconds before the next attempt.
    Pending { pause_ms: u64 },
}

/// What the loop does after an attempt.
pub enum PollStep {
    /// Stop: the awaited state holds.
    Finished,
    /// Stop: the awaited state can no longer be reached.
    Aborted,
    /// Pause this many milliseconds, then try again if attempts are left.
    Retry { pause_ms: u64 },
}

/// The step taken after an observation.
pub open spec fn step_for(obs: PollObservation) -> PollStep {
    match obs {
        PollObservation::Ready => PollStep::Finished,
        PollObservation::Failed => PollStep::Aborted,
        PollObservation::Pending { pause_ms } => PollStep::Retry { pause_ms },
    }
}

/// How a polling loop ends.
pub enum PollOutcome {
    /// An attempt observed the awaited state.
    Succeeded,
    /// An attempt observed that the awaited state can no longer be reached.
    Failed,
    /// Every allowed attempt was pending.
    Exhausted,
}

/// The observations of a loop as a function of the attempt number; attempts beyond those made
/// count as pending.
pub open spec fn observations(h: Seq<PollObservation>) -> spec_fn(nat) -> PollObservation {
    |i: nat|
        if i < h.len() {
            h[i as int]
        } else {
            PollObservation::Pending { pause_ms: 0 }
        }
}

/// Drives a polling loop: counts its attempts against a limit, records what each attempt
/// observed, and decides how the loop ends.
pub struct Poller {
    attempts: u64,
    limit: u64,
    answer: Option<bool>,
    history: Ghost<Seq<PollObservation>>,
}

impl Poller {
    #[verifier::type_invariant]
    spec fn consistent(&self) -> bool {
        &&& self.history@.len() == self.attempts
        &&& self.attempts <= self.limit
        &&& self.answer is Some <==> (self.history@.len() > 0 && !(self.history@.last() is Pending))
        &&& self.answer == Some(true) ==> self.history@.last() is Ready
        &&& self.answer == Some(false) ==> self.history@.last() is Failed
        &&& forall|i: int|
            0 <= i < self.history@.len() - 1 ==> #[trigger] self.history@[i] is Pending
    }

    /// Attempts made so far.
    pub closed spec fn made(&self) -> nat {
        self.attempts as nat
    }

    /// Attempts allowed.
    pub closed spec fn allowed(&self) -> nat {
        self.limit as nat
    }

    /// What the attempts made so far observed, in order.
    pub closed spec fn observed(&self) -> Seq<PollObservation> {
        self.history@
    }

    /// The loop goes on: no attempt has answered and attempts are left.
    pub closed spec fn running(&self) -> bool {
        self.answer is None && self.attempts < self.limit
    }

    /// A poller that allows `limit` attempts and has made none.
    pub fn new(limit: u64) -> (p: Poller)
        ensures
            p.made() == 0,
            p.allowed() == limit,
            p.observed() == Seq::<PollObservation>::empty(),
            p.running() == (limit > 0),
    {
        Poller { attempts: 0, limit, answer: None, history: Ghost(Seq::empty()) }
    }

    /// Whether the loop goes on with another attempt.
    pub fn is_running(&self) -> (r: bool)
        ensures
            r == self.running(),
    {
        self.answer.is_none() && self.attempts < self.limit
    }

    /// Attempts made so far.
    pub fn attempts(&self) -> (n: u64)
        ensures
            n == self.made(),
    {
        self.attempts
    }

    /// Records one attempt and decides what follows it.
    pub fn observe(&mut self, obs: PollObservation) -> (step: PollStep)
        requires
            old(self).running(),
        ensures
            final(self).made() == old(self).made() + 1,
            final(self).allowed() == old(self).allowed(),
            final(self).observed() == old(self).observed().push(obs),
            step == step_for(obs),
    {
        proof {
            use_type_invariant(&*self);
        }
        let answer = match obs {
            PollObservation::Ready => Some(true),
            PollObservation::Failed => Some(false),
            PollObservation::Pending { .. } => None,
        };
        let ghost history = self.history@.push(obs);
        assert(forall|i: int| 0 <= i < history.len() - 1 ==> history[i] == self.history@[i]);
        *self = Poller {
            attempts: self.attempts + 1,
            limit: self.limit,
            answer,
            history: Ghost(history),
        };
        match obs {
            PollObservation::Ready => PollStep::Finished,
            PollObservation::Failed => PollStep::Aborted,
            PollObservation::Pending { pause_ms } => PollStep::Retry { pause_ms },
        }
    }

    /// How the loop ended: the model `poll_run` of the observations made, with as many attempts
    /// as were made.
    pub fn outcome(&self) -> (o: PollOutcome)
        requires
            !self.running(),
        ensures
            o == poll_run(self.allowed(), observations(self.observed()), 0).0,
            self.made() == poll_run(self.allowed(), observations(self.observed()), 0).1,
    {
        proof {
            use_type_invariant(self);
            let h = self.history@;
            let f = observations(h);
            if self.answer is Some {
                let i = (h.len() - 1) as nat;
                assert forall|j: nat| 0 <= j < i implies #[trigger] f(j) is Pending by {
                    assert(h[j as int] is Pending);
                }
                lemma_poll_stops_at_first_answer(self.limit as nat, f, 0, i);
            } else {
                assert forall|j: nat| 0 <= j < self.limit implies #[trigger] f(j) is Pending by {
                    if j < h.len() {
                        if j == h.len() - 1 {
                        } else {
                            assert(h[j as int] is Pending);
                        }
                    }
                }
                lemma_poll_exhausts_when_never_ready(self.limit as nat, f, 0);
            }
        }
        match self.answer {
            Some(true) => PollOutcome::Succeeded,
            Some(false) => PollOutcome::Failed,
            None => PollOutcome::Exhausted,
        }
    }
}

/// The end of a loop that allows `limit` attempts, has made `k`, and whose attempt `i` observes
/// `obs(i)`; paired with the number of attempts made in all.
pub open spec fn poll_run(
    limit: nat,
    obs: spec_fn(nat) -> PollObservation,
    k: nat,
) -> (PollOutcome, nat)
    decreases limit - k,
{
    if k >= limit {
        (PollOutcome::Exhausted, k)
    } else {
        match obs(k) {
            PollObservation::Ready => (PollOutcome::Succeeded, k + 1),
            PollObservation::Failed => (PollOutcome::Failed, k + 1),
            PollObservation::Pending { .. } => poll_run(limit, obs, k + 1),
        }
    }
}

/// A polling loop never makes more attempts than it allows, and it gives up only once it has
/// made all of them.
pub proof fn lemma_poll_bounded(limit: nat, obs: spec_fn(nat) -> PollObservation, k: nat)
    requires
        k <= limit,
    ensures
        k <= poll_run(limit, obs, k).1 <= limit,
        k < limit ==> k < poll_run(limit, obs, k).1,
        poll_run(limit, obs, k).0 == PollOutcome::Exhausted ==> poll_run(limit, obs, k).1 == limit,
    decreases limit - k,
{
    if k < limit {
        if obs(k) is Pending {
            lemma_poll_bounded(limit, obs, k + 1);
        }
    }
}

/// Every attempt but the last one a loop makes was pending, and when the loop gives up, all of
/// them were.
pub proof fn lemma_poll_pending_until_end(limit: nat, obs: spec_fn(nat) -> PollObservation, k: nat)
    requires
        k <= limit,
    ensures
        forall|j: nat| k <= j && j + 1 < poll_run(limit, obs, k).1 ==> #[trigger] obs(j) is Pending,
        poll_run(limit, obs, k).0 == PollOutcome::Exhausted ==> forall|j: nat|
            k <= j < poll_run(limit, obs, k).1 ==> #[trigger] obs(j) is Pending,
    decreases limit - k,
{
    if k < limit {
        if obs(k) is Pending {
            lemma_poll_pending_until_end(limit, obs, k + 1);
        }
    }
}

/// When nothing is ever ready, the loop gives up after exactly `limit` attempts.
pub proof fn lemma_poll_exhausts_when_never_ready(
    limit: nat,
    obs: spec_fn(nat) -> PollObservation,
    k: nat,
)
    requires
        k <= limit,
        forall|i: nat| k <= i < limit ==> #[trigger] obs(i) is Pending,
    ensures
        poll_run(limit, obs, k) == (PollOutcome::Exhausted, limit),
    decreases limit - k,
{
    if k < limit {
        lemma_poll_exhausts_when_never_ready(limit, obs, k + 1);
    }
}

/// When attempt `i` is the first that is not pending and `i` is within the limit, the loop ends
/// with what that attempt observed, after `i + 1` attempts.
pub proof fn lemma_poll_stops_at_first_answer(
    limit: nat,
    obs: spec_fn(nat) -> PollObservation,
    k: nat,
    i: nat,
)
    requires
        k <= i < limit,
        forall|j: nat| k <= j < i ==> #[trigger] obs(j) is Pending,
        !(obs(i) is Pending),
    ensures
        poll_run(limit, obs, k).1 == i + 1,
        obs(i) is Ready ==> poll_run(limit, obs, k).0 == PollOutcome::Succeeded,
        obs(i) is Failed ==> poll_run(limit, obs, k).0 == PollOutcome::Failed,
    decreases i - k,
{
    if k < i {
        lemma_poll_stops_at_first_answer(limit, obs, k + 1, i);
    }
}

} // verus!
