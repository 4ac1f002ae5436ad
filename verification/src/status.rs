//! Updating the conditions of a `SearchIndex` status.
use vstd::prelude::*;

use crate::clock::{now_rfc3339, utc_timestamp};
use crate::crd::{Condition, ConditionView, SearchIndexStatus, SearchIndexStatusView};

verus! {

/// Index of the first condition at or after `from` whose type is `t`, or -1 when there is none.
pub open spec fn position_of_type(cs: Seq<ConditionView>, t: Seq<char>, from: int) -> int
    decreases cs.len() - from,
{
    if from < 0 || from >= cs.len() {
        -1
    } else if cs[from].type_ == t {
        from
    } else {
        position_of_type(cs, t, from + 1)
    }
}

/// Index of the first condition whose type is `t`, or -1 when there is none.
pub open spec fn first_of_type(cs: Seq<ConditionView>, t: Seq<char>) -> int {
    position_of_type(cs, t, 0)
}

/// `cs` with `c` recorded: the first condition of `c`'s type is replaced by `c` when its status
/// differs from `c`'s and kept as it is when the status is the same; `c` is appended when no
/// condition has its type.
pub open spec fn upsert_condition(cs: Seq<ConditionView>, c: ConditionView) -> Seq<ConditionView> {
    let i = first_of_type(cs, c.type_);
    if i < 0 {
        cs.push(c)
    } else if cs[i].status == c.status {
        cs
    } else {
        cs.update(i, c)
    }
}

/// The condition that `set_condition` records.
pub open spec fn new_condition(
    t: Seq<char>,
    status: Seq<char>,
    reason: Seq<char>,
    message: Seq<char>,
    now: Seq<char>,
) -> ConditionView {
    ConditionView {
        type_: t,
        status: status,
        reason: Some(reason),
        message: Some(message),
        last_transition_time: Some(now),
    }
}

impl SearchIndexStatusView {
    /// The status with `c` recorded among its conditions (an absent list counts as empty).
    pub open spec fn with_condition(self, c: ConditionView) -> SearchIndexStatusView {
        SearchIndexStatusView {
            conditions: Some(upsert_condition(self.conditions.unwrap_or(Seq::empty()), c)),
            ..self
        }
    }
}

/// No two conditions share a type.
pub open spec fn unique_types(cs: Seq<ConditionView>) -> bool {
    forall|i: int, j: int|
        0 <= i < cs.len() && 0 <= j < cs.len() && i != j ==> #[trigger] cs[i].type_ != #[trigger] cs[j].type_
}

/// What `position_of_type` finds: the first match at or after `from`, or no match at all.
pub proof fn lemma_position_of_type(cs: Seq<ConditionView>, t: Seq<char>, from: int)
    requires
        0 <= from,
    ensures
        position_of_type(cs, t, from) == -1 || from <= position_of_type(cs, t, from) < cs.len(),
        position_of_type(cs, t, from) >= 0 ==> cs[position_of_type(cs, t, from)].type_ == t,
        forall|j: int|
            from <= j < cs.len() && (position_of_type(cs, t, from) == -1 || j < position_of_type(
                cs,
                t,
                from,
            )) ==> #[trigger] cs[j].type_ != t,
    decreases cs.len() - from,
{
    if from < cs.len() && cs[from].type_ != t {
        lemma_position_of_type(cs, t, from + 1);
    }
}

/// The first index of type `t` is characterised by its type and by the types before it.
proof fn lemma_first_of_type_is(cs: Seq<ConditionView>, t: Seq<char>, i: int)
    requires
        0 <= i < cs.len(),
        cs[i].type_ == t,
        forall|j: int| 0 <= j < i ==> #[trigger] cs[j].type_ != t,
    ensures
        first_of_type(cs, t) == i,
{
    lemma_position_of_type(cs, t, 0);
}

/// No index of type `t` means the first index is -1.
proof fn lemma_first_of_type_none(cs: Seq<ConditionView>, t: Seq<char>)
    requires
        forall|j: int| 0 <= j < cs.len() ==> #[trigger] cs[j].type_ != t,
    ensures
        first_of_type(cs, t) == -1,
{
    lemma_position_of_type(cs, t, 0);
}

/// Records `c` in `status` the way `set_condition` does, given the time of the change.
pub fn set_condition_at(
    status: &mut SearchIndexStatus,
    type_: &str,
    status_value: &str,
    reason: &str,
    message: &str,
    now: String,
)
    ensures
        final(status)@ == old(status)@.with_condition(
            new_condition(type_@, status_value@, reason@, message@, now@),
        ),
{
    let ghost c = new_condition(type_@, status_value@, reason@, message@, now@);
    let new_entry = Condition {
        type_: type_.to_owned(),
        status: status_value.to_owned(),
        reason: Some(reason.to_owned()),
        message: Some(message.to_owned()),
        last_transition_time: Some(now),
    };
    assert(new_entry@ == c);
    let mut conds = match status.conditions.take() {
        Some(v) => v,
        None => Vec::new(),
    };
    let ghost before = conds.deep_view();
    assert(before == old(status)@.conditions.unwrap_or(Seq::empty()));
    let t = type_.to_owned();
    let value = status_value.to_owned();
    let n = conds.len();
    let mut i: usize = 0;
    while i < n && !(conds[i].type_ == t)
        invariant
            n == conds.len(),
            i <= n,
            conds.deep_view() == before,
            forall|j: int| 0 <= j < i ==> #[trigger] before[j].type_ != t@,
        decreases n - i,
    {
        assert(before[i as int] == conds[i as int]@);
        i = i + 1;
    }
    proof {
        lemma_position_of_type(before, t@, 0);
    }
    if i < n {
        assert(before[i as int] == conds[i as int]@);
        proof {
            lemma_first_of_type_is(before, t@, i as int);
        }
        if !(conds[i].status == value) {
            conds.set(i, new_entry);
            assert(conds.deep_view() =~= before.update(i as int, c));
        }
    } else {
        proof {
            lemma_first_of_type_none(before, t@);
        }
        conds.push(new_entry);
        assert(conds.deep_view() =~= before.push(c));
    }
    status.conditions = Some(conds);
}

/// Records a condition stamped with the current time, an RFC 3339 UTC time stamp: the condition
/// of type `type_` gets status `status_value`, reason and message when its status changes or
/// when it is new; a condition whose status is already `status_value` is left as it is.
pub fn set_condition(
    status: &mut SearchIndexStatus,
    type_: &str,
    status_value: &str,
    reason: &str,
    message: &str,
)
    ensures
        exists|now: Seq<char>|
            utc_timestamp(now) && final(status)@ == #[trigger] old(status)@.with_condition(
                new_condition(type_@, status_value@, reason@, message@, now),
            ),
{
    let now = now_rfc3339();
    let ghost stamp = now@;
    set_condition_at(status, type_, status_value, reason, message, now);
    assert(final(status)@ == old(status)@.with_condition(
        new_condition(type_@, status_value@, reason@, message@, stamp),
    ));
}

/// After a condition is recorded, the first condition of its type carries the requested status.
pub proof fn lemma_recorded_condition_holds(cs: Seq<ConditionView>, c: ConditionView)
    ensures
        0 <= first_of_type(upsert_condition(cs, c), c.type_),
        upsert_condition(cs, c)[first_of_type(upsert_condition(cs, c), c.type_)].status == c.status,
{
    let i = first_of_type(cs, c.type_);
    lemma_position_of_type(cs, c.type_, 0);
    let r = upsert_condition(cs, c);
    if i < 0 {
        assert forall|j: int| 0 <= j < cs.len() implies #[trigger] r[j].type_ != c.type_ by {
            assert(r[j] == cs[j]);
        }
        lemma_first_of_type_is(r, c.type_, cs.len() as int);
    } else if cs[i].status != c.status {
        assert forall|j: int| 0 <= j < i implies #[trigger] r[j].type_ != c.type_ by {
            assert(r[j] == cs[j]);
        }
        lemma_first_of_type_is(r, c.type_, i);
    }
}

/// Recording a condition leaves the conditions of every other type as they were.
pub proof fn lemma_other_conditions_unchanged(
    cs: Seq<ConditionView>,
    c: ConditionView,
    t: Seq<char>,
)
    requires
        t != c.type_,
    ensures
        first_of_type(upsert_condition(cs, c), t) == first_of_type(cs, t),
        first_of_type(cs, t) >= 0 ==> upsert_condition(cs, c)[first_of_type(cs, t)] == cs[first_of_type(
            cs,
            t,
        )],
{
    let r = upsert_condition(cs, c);
    let i = first_of_type(cs, c.type_);
    let k = first_of_type(cs, t);
    lemma_position_of_type(cs, c.type_, 0);
    lemma_position_of_type(cs, t, 0);
    assert(forall|j: int| 0 <= j < cs.len() ==> #[trigger] r[j].type_ == cs[j].type_ || j == i);
    if k >= 0 {
        assert forall|j: int| 0 <= j < k implies #[trigger] r[j].type_ != t by {
            if j != i {
                assert(r[j] == cs[j]);
            }
        }
        lemma_first_of_type_is(r, t, k);
    } else {
        assert forall|j: int| 0 <= j < r.len() implies #[trigger] r[j].type_ != t by {
            if j < cs.len() && j != i {
                assert(r[j] == cs[j]);
            }
        }
        lemma_first_of_type_none(r, t);
    }
}

/// Recording a condition keeps the types of the conditions distinct.
pub proof fn lemma_types_stay_unique(cs: Seq<ConditionView>, c: ConditionView)
    requires
        unique_types(cs),
    ensures
        unique_types(upsert_condition(cs, c)),
{
    let r = upsert_condition(cs, c);
    let i = first_of_type(cs, c.type_);
    lemma_position_of_type(cs, c.type_, 0);
    assert forall|a: int, b: int|
        0 <= a < r.len() && 0 <= b < r.len() && a != b implies #[trigger] r[a].type_ != #[trigger] r[b].type_ by {
        if i < 0 {
            if a < cs.len() && b < cs.len() {
                assert(r[a] == cs[a] && r[b] == cs[b]);
            } else if a == cs.len() {
                assert(r[b] == cs[b]);
            } else {
                assert(r[a] == cs[a]);
            }
        } else {
            assert(cs[a].type_ != cs[b].type_);
        }
    }
}

/// Recording a condition a second time with the same type and status changes nothing, whatever
/// its reason, message or time: the first recording stands.
pub proof fn lemma_record_condition_idempotent(
    cs: Seq<ConditionView>,
    c1: ConditionView,
    c2: ConditionView,
)
    requires
        c1.type_ == c2.type_,
        c1.status == c2.status,
    ensures
        upsert_condition(upsert_condition(cs, c1), c2) == upsert_condition(cs, c1),
{
    lemma_recorded_condition_holds(cs, c1);
}

} // verus!
