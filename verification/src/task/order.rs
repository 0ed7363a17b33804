//! Task records in the order of their creation.

use vstd::prelude::*;
use super::info::{TaskInfo, TaskRecord};
use super::table::{has_id, records, unique_ids};

verus! {

/// Earlier records come first.
pub open spec fn sorted_by_created(s: Seq<TaskRecord>) -> bool {
    forall|i: int, j: int| 0 <= i < j < s.len() ==> s[i].created_at <= s[j].created_at
}

/// `r` put into `s` behind every record that is not younger than it.
pub open spec fn insert_by_created(s: Seq<TaskRecord>, r: TaskRecord) -> Seq<TaskRecord>
    decreases s.len(),
{
    if s.len() == 0 {
        seq![r]
    } else if s.last().created_at <= r.created_at {
        s.push(r)
    } else {
        insert_by_created(s.drop_last(), r).push(s.last())
    }
}

/// The records of `s` from the oldest to the youngest; records of one age
/// keep the order that they have in `s`.
pub open spec fn sort_by_created(s: Seq<TaskRecord>) -> Seq<TaskRecord>
    decreases s.len(),
{
    if s.len() == 0 {
        s
    } else {
        insert_by_created(sort_by_created(s.drop_last()), s.last())
    }
}

/// Where an insertion puts a record: at `k`, when every record from `k` on
/// is younger and the one before `k` is not.
pub proof fn lemma_insert_position(s: Seq<TaskRecord>, r: TaskRecord, k: int)
    requires
        0 <= k <= s.len(),
        forall|j: int| k <= j < s.len() ==> s[j].created_at > r.created_at,
        k > 0 ==> s[k - 1].created_at <= r.created_at,
    ensures
        insert_by_created(s, r) == s.insert(k, r),
    decreases s.len(),
{
    if s.len() == 0 {
        assert(seq![r] =~= s.insert(k, r));
    } else if k == s.len() {
        assert(s.push(r) =~= s.insert(k, r));
    } else {
        lemma_insert_position(s.drop_last(), r, k);
        assert(s.drop_last().insert(k, r).push(s.last()) =~= s.insert(k, r));
    }
}

/// An insertion adds the one record and keeps a sorted sequence sorted.
pub proof fn lemma_insert_by_created(s: Seq<TaskRecord>, r: TaskRecord)
    ensures
        insert_by_created(s, r).len() == s.len() + 1,
        insert_by_created(s, r).to_multiset() == s.to_multiset().insert(r),
        sorted_by_created(s) ==> sorted_by_created(insert_by_created(s, r)),
    decreases s.len(),
{
    broadcast use vstd::seq_lib::to_multiset_build;

    let out = insert_by_created(s, r);
    if s.len() == 0 {
        assert(seq![r] =~= s.push(r));
    } else if s.last().created_at <= r.created_at {
    } else {
        let front = s.drop_last();
        lemma_insert_by_created(front, r);
        assert(front.push(s.last()) =~= s);
        let mid = insert_by_created(front, r);
        assert(out.to_multiset() =~= s.to_multiset().insert(r));
        if sorted_by_created(s) {
            assert(sorted_by_created(front));
            assert forall|i: int, j: int| 0 <= i < j < out.len() implies out[i].created_at
                <= out[j].created_at by {
                if j == mid.len() {
                    assert(mid.contains(mid[i]));
                    vstd::seq_lib::to_multiset_contains(mid, mid[i]);
                    if mid[i] != r {
                        vstd::seq_lib::to_multiset_contains(front, mid[i]);
                        let k = choose|k: int| 0 <= k < front.len() && front[k] == mid[i];
                        assert(s[k].created_at <= s[s.len() - 1].created_at);
                    }
                }
            }
        }
    }
}

/// Sorting rearranges: the result holds the same records as often, and the
/// oldest comes first.
pub proof fn lemma_sort_by_created(s: Seq<TaskRecord>)
    ensures
        sort_by_created(s).len() == s.len(),
        sort_by_created(s).to_multiset() == s.to_multiset(),
        sorted_by_created(sort_by_created(s)),
        forall|r: TaskRecord| sort_by_created(s).contains(r) <==> s.contains(r),
    decreases s.len(),
{
    broadcast use vstd::seq_lib::to_multiset_build;

    if s.len() > 0 {
        lemma_sort_by_created(s.drop_last());
        lemma_insert_by_created(sort_by_created(s.drop_last()), s.last());
        assert(s.drop_last().push(s.last()) =~= s);
    }
    assert forall|r: TaskRecord| sort_by_created(s).contains(r) <==> s.contains(r) by {
        vstd::seq_lib::to_multiset_contains(sort_by_created(s), r);
        vstd::seq_lib::to_multiset_contains(s, r);
    }
}

/// An insertion puts the record at some position and moves no other.
pub proof fn lemma_insert_somewhere(s: Seq<TaskRecord>, r: TaskRecord) -> (k: int)
    ensures
        0 <= k <= s.len(),
        insert_by_created(s, r) == s.insert(k, r),
    decreases s.len(),
{
    if s.len() == 0 {
        assert(seq![r] =~= s.insert(0, r));
        0
    } else if s.last().created_at <= r.created_at {
        assert(s.push(r) =~= s.insert(s.len() as int, r));
        s.len() as int
    } else {
        let k = lemma_insert_somewhere(s.drop_last(), r);
        assert(s.drop_last().insert(k, r).push(s.last()) =~= s.insert(k, r));
        k
    }
}

/// Sorting keeps identifiers distinct and names the same tasks.
pub proof fn lemma_sort_unique(s: Seq<TaskRecord>)
    requires
        unique_ids(s),
    ensures
        unique_ids(sort_by_created(s)),
        forall|id: Seq<char>| has_id(sort_by_created(s), id) <==> has_id(s, id),
    decreases s.len(),
{
    if s.len() > 0 {
        let front = s.drop_last();
        let r = s.last();
        lemma_sort_unique(front);
        let mid = sort_by_created(front);
        let k = lemma_insert_somewhere(mid, r);
        let out = mid.insert(k, r);
        assert(!has_id(front, r.id)) by {
            if has_id(front, r.id) {
                let i = choose|i: int| 0 <= i < front.len() && front[i].id == r.id;
                assert(s[i].id != s[s.len() - 1].id);
            }
        }
        assert(!has_id(mid, r.id));
        assert forall|i: int, j: int| 0 <= i < j < out.len() implies out[i].id != out[j].id by {
            if i == k {
                assert(out[j] == mid[j - 1]);
                assert(has_id(mid, mid[j - 1].id));
            } else if j == k {
                assert(out[i] == mid[i]);
                assert(has_id(mid, mid[i].id));
            } else {
                let a = if i < k { i } else { i - 1 };
                let b = if j < k { j } else { j - 1 };
                assert(out[i] == mid[a] && out[j] == mid[b]);
            }
        }
        assert forall|id: Seq<char>| has_id(out, id) <==> has_id(s, id) by {
            if has_id(out, id) {
                let i = choose|i: int| 0 <= i < out.len() && out[i].id == id;
                if i == k {
                    assert(s[s.len() - 1].id == id);
                } else {
                    let a = if i < k { i } else { i - 1 };
                    assert(mid[a].id == id);
                    assert(has_id(mid, id));
                    assert(has_id(front, id));
                    let j = choose|j: int| 0 <= j < front.len() && front[j].id == id;
                    assert(s[j].id == id);
                }
            }
            if has_id(s, id) {
                let i = choose|i: int| 0 <= i < s.len() && s[i].id == id;
                if i == s.len() - 1 {
                    assert(out[k].id == id);
                } else {
                    assert(front[i].id == id);
                    assert(has_id(front, id));
                    assert(has_id(mid, id));
                    let a = choose|a: int| 0 <= a < mid.len() && mid[a].id == id;
                    let b = if a < k { a } else { a + 1 };
                    assert(out[b] == mid[a]);
                }
            }
        }
    }
}

/// Puts `task` into a vector behind every task that is not younger.
pub fn insert_task_by_created(out: &mut Vec<TaskInfo>, task: TaskInfo)
    ensures
        records(final(out)@) == insert_by_created(records(old(out)@), task@),
{
    let mut k: usize = out.len();
    while k > 0 && out[k - 1].created_at > task.created_at
        invariant
            k <= out.len(),
            forall|j: int| k <= j < out.len() ==> out[j].created_at > task.created_at,
        decreases k,
    {
        k = k - 1;
    }
    proof {
        lemma_insert_position(records(out@), task@, k as int);
    }
    out.insert(k, task);
    assert(records(out@) =~= records(old(out)@).insert(k as int, task@));
}

/// The tasks of a vector from its end to its start.
pub fn reverse_tasks(tasks: Vec<TaskInfo>) -> (out: Vec<TaskInfo>)
    ensures
        records(out@) == records(tasks@).reverse(),
{
    let mut rest = tasks;
    let mut out: Vec<TaskInfo> = Vec::new();
    while rest.len() > 0
        invariant
            rest.len() <= tasks.len(),
            out.len() + rest.len() == tasks.len(),
            rest@ == tasks@.take(rest.len() as int),
            forall|j: int| 0 <= j < out.len() ==> out[j] == tasks[tasks.len() - 1 - j],
        decreases rest.len(),
    {
        let task = rest.pop().unwrap();
        out.push(task);
        assert(rest@ =~= tasks@.take(rest.len() as int));
    }
    assert(records(out@) =~= records(tasks@).reverse());
    out
}

} // verus!
