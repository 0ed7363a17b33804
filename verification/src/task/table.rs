//! Sequences of task records in which an identifier names at most one record.
//!
//! The registry and the durable table both keep their tasks this way. The
//! functions here say what it means to find, replace, change and drop the
//! record of one identifier, and the vector operations that do so.

use vstd::prelude::*;
use crate::sequences::lemma_filter_all;
use crate::text::same_text;
use super::info::{TaskInfo, TaskRecord};

verus! {

/// The records of a vector of tasks, in the vector's order.
pub open spec fn records(tasks: Seq<TaskInfo>) -> Seq<TaskRecord> {
    tasks.map_values(|t: TaskInfo| t@)
}

/// No identifier occurs twice.
pub open spec fn unique_ids(s: Seq<TaskRecord>) -> bool {
    forall|i: int, j: int| 0 <= i < j < s.len() ==> s[i].id != s[j].id
}

/// Some record carries the identifier `id`.
pub open spec fn has_id(s: Seq<TaskRecord>, id: Seq<char>) -> bool {
    exists|i: int| 0 <= i < s.len() && s[i].id == id
}

/// The record with the identifier `id`, if there is one.
pub open spec fn lookup(s: Seq<TaskRecord>, id: Seq<char>) -> Option<TaskRecord> {
    if has_id(s, id) {
        Some(s[choose|i: int| 0 <= i < s.len() && s[i].id == id])
    } else {
        None
    }
}

/// The test that a record carries another identifier than `id`.
pub open spec fn not_id(id: Seq<char>) -> spec_fn(TaskRecord) -> bool {
    |r: TaskRecord| r.id != id
}

/// The sequence without the record of `id`.
pub open spec fn without_id(s: Seq<TaskRecord>, id: Seq<char>) -> Seq<TaskRecord> {
    s.filter(not_id(id))
}

/// The sequence with `r` as the record of its identifier: an older record of
/// that identifier leaves, and `r` comes last.
pub open spec fn upsert(s: Seq<TaskRecord>, r: TaskRecord) -> Seq<TaskRecord> {
    without_id(s, r.id).push(r)
}

/// The sequence with `change` applied to the record of `id` and every other
/// record as it was.
pub open spec fn update_where_id(
    s: Seq<TaskRecord>,
    id: Seq<char>,
    change: spec_fn(TaskRecord) -> TaskRecord,
) -> Seq<TaskRecord> {
    s.map_values(
        |r: TaskRecord|
            if r.id == id {
                change(r)
            } else {
                r
            },
    )
}

/// `change` leaves the identifier of every record alone.
pub open spec fn keeps_id(change: spec_fn(TaskRecord) -> TaskRecord) -> bool {
    forall|r: TaskRecord| (#[trigger] change(r)).id == r.id
}

/// The records of a vector that grew by one task.
pub proof fn lemma_records_push(tasks: Seq<TaskInfo>, task: TaskInfo)
    ensures
        records(tasks.push(task)) == records(tasks).push(task@),
{
    assert(records(tasks.push(task)) =~= records(tasks).push(task@));
}

/// A filter keeps identifiers distinct.
pub proof fn lemma_filter_unique(s: Seq<TaskRecord>, p: spec_fn(TaskRecord) -> bool)
    requires
        unique_ids(s),
    ensures
        unique_ids(s.filter(p)),
        forall|id: Seq<char>| has_id(s.filter(p), id) ==> has_id(s, id),
    decreases s.len(),
{
    reveal(Seq::filter);
    if s.len() > 0 {
        let front = s.drop_last();
        lemma_filter_unique(front, p);
        let kept = front.filter(p);
        assert forall|id: Seq<char>| has_id(kept, id) implies has_id(s, id) by {
            assert(has_id(front, id));
            let i = choose|i: int| 0 <= i < front.len() && front[i].id == id;
            assert(s[i].id == id);
        }
        if p(s.last()) {
            let out = kept.push(s.last());
            assert forall|i: int, j: int| 0 <= i < j < out.len() implies out[i].id != out[j].id by {
                if j == kept.len() {
                    assert(has_id(kept, kept[i].id));
                    assert(has_id(front, kept[i].id));
                    let k = choose|k: int| 0 <= k < front.len() && front[k].id == kept[i].id;
                    assert(s[k].id != s[s.len() - 1].id);
                }
            }
            assert forall|id: Seq<char>| has_id(out, id) implies has_id(s, id) by {
                let i = choose|i: int| 0 <= i < out.len() && out[i].id == id;
                if i == kept.len() {
                    assert(s[s.len() - 1].id == id);
                } else {
                    assert(has_id(kept, id));
                }
            }
        }
    }
}

/// With distinct identifiers, the record found for the identifier at
/// position `i` is the record at position `i`.
pub proof fn lemma_lookup_at(s: Seq<TaskRecord>, i: int)
    requires
        unique_ids(s),
        0 <= i < s.len(),
    ensures
        has_id(s, s[i].id),
        lookup(s, s[i].id) == Some(s[i]),
{
    assert(has_id(s, s[i].id));
    let k = choose|k: int| 0 <= k < s.len() && s[k].id == s[i].id;
    assert(k == i) by {
        if k < i {
            assert(s[k].id != s[i].id);
        } else if i < k {
            assert(s[i].id != s[k].id);
        }
    }
}

/// Dropping an identifier that no record carries changes nothing.
pub proof fn lemma_without_id_absent(s: Seq<TaskRecord>, id: Seq<char>)
    requires
        !has_id(s, id),
    ensures
        without_id(s, id) == s,
{
    assert forall|i: int| 0 <= i < s.len() implies not_id(id)(s[i]) by {
        if s[i].id == id {
            assert(has_id(s, id));
        }
    }
    lemma_filter_all(s, not_id(id));
}

/// With distinct identifiers, dropping the identifier at position `i` takes
/// out that one record.
pub proof fn lemma_without_id_at(s: Seq<TaskRecord>, i: int)
    requires
        unique_ids(s),
        0 <= i < s.len(),
    ensures
        without_id(s, s[i].id) == s.remove(i),
    decreases s.len(),
{
    reveal(Seq::filter);
    let id = s[i].id;
    let front = s.drop_last();
    let last = s.len() - 1;
    if i == last {
        assert forall|k: int| 0 <= k < front.len() implies not_id(id)(front[k]) by {
            assert(s[k].id != s[last].id);
        }
        lemma_filter_all(front, not_id(id));
        assert(s.remove(i) =~= front);
    } else {
        lemma_without_id_at(front, i);
        assert(s[i].id != s[last].id);
        assert(front.remove(i).push(s.last()) =~= s.remove(i));
    }
}

/// Dropping an identifier keeps the others distinct and leaves no record of
/// the one dropped.
pub proof fn lemma_without_id_unique(s: Seq<TaskRecord>, id: Seq<char>)
    requires
        unique_ids(s),
    ensures
        unique_ids(without_id(s, id)),
        !has_id(without_id(s, id), id),
        forall|other: Seq<char>| other != id ==> lookup(without_id(s, id), other) == lookup(s, other),
{
    lemma_filter_unique(s, not_id(id));
    let out = without_id(s, id);
    broadcast use vstd::seq_lib::group_filter_ensures;
    if has_id(out, id) {
        let i = choose|i: int| 0 <= i < out.len() && out[i].id == id;
        assert(not_id(id)(out[i]));
    }
    assert forall|other: Seq<char>| other != id implies lookup(out, other) == lookup(s, other) by {
        if has_id(s, other) {
            let i = choose|i: int| 0 <= i < s.len() && s[i].id == other;
            assert(not_id(id)(s[i]));
            assert(out.contains(s[i]));
            let k = choose|k: int| 0 <= k < out.len() && out[k] == s[i];
            lemma_lookup_at(out, k);
            lemma_lookup_at(s, i);
        } else {
            assert(!has_id(out, other));
        }
    }
}

/// Putting a record in keeps identifiers distinct, makes it the record of
/// its identifier and leaves the record of every other identifier alone.
pub proof fn lemma_upsert(s: Seq<TaskRecord>, r: TaskRecord)
    requires
        unique_ids(s),
    ensures
        unique_ids(upsert(s, r)),
        lookup(upsert(s, r), r.id) == Some(r),
        forall|other: Seq<char>| other != r.id ==> lookup(upsert(s, r), other) == lookup(s, other),
{
    lemma_without_id_unique(s, r.id);
    let rest = without_id(s, r.id);
    let out = upsert(s, r);
    assert forall|i: int, j: int| 0 <= i < j < out.len() implies out[i].id != out[j].id by {
        if j == rest.len() {
            if out[i].id == r.id {
                assert(rest[i].id == r.id);
                assert(has_id(rest, r.id));
            }
        }
    }
    assert(out[rest.len() as int] == r);
    lemma_lookup_at(out, rest.len() as int);
    assert forall|other: Seq<char>| other != r.id implies lookup(out, other) == lookup(s, other) by {
        if has_id(rest, other) {
            let i = choose|i: int| 0 <= i < rest.len() && rest[i].id == other;
            assert(out[i] == rest[i]);
            lemma_lookup_at(out, i);
            lemma_lookup_at(rest, i);
        } else {
            if has_id(out, other) {
                let i = choose|i: int| 0 <= i < out.len() && out[i].id == other;
                assert(i < rest.len());
                assert(rest[i].id == other);
            }
        }
    }
}

/// Changing the record of one identifier keeps identifiers distinct, and the
/// record found for each identifier is the changed one or the old one.
pub proof fn lemma_update_where_id(
    s: Seq<TaskRecord>,
    id: Seq<char>,
    change: spec_fn(TaskRecord) -> TaskRecord,
)
    requires
        unique_ids(s),
        keeps_id(change),
    ensures
        unique_ids(update_where_id(s, id, change)),
        update_where_id(s, id, change).len() == s.len(),
        lookup(update_where_id(s, id, change), id) == match lookup(s, id) {
            Some(r) => Some(change(r)),
            None => None,
        },
        forall|other: Seq<char>|
            other != id ==> lookup(update_where_id(s, id, change), other) == lookup(s, other),
{
    let out = update_where_id(s, id, change);
    assert forall|i: int| 0 <= i < s.len() implies (#[trigger] out[i]).id == s[i].id by {
        assert(change(s[i]).id == s[i].id);
    }
    assert forall|any: Seq<char>| has_id(out, any) == has_id(s, any) by {
        if has_id(out, any) {
            let i = choose|i: int| 0 <= i < out.len() && out[i].id == any;
            assert(s[i].id == any);
        }
        if has_id(s, any) {
            let i = choose|i: int| 0 <= i < s.len() && s[i].id == any;
            assert(out[i].id == any);
        }
    }
    assert forall|any: Seq<char>| has_id(s, any) implies lookup(out, any) == Some(
        if any == id {
            change(lookup(s, any).unwrap())
        } else {
            lookup(s, any).unwrap()
        },
    ) by {
        let i = choose|i: int| 0 <= i < s.len() && s[i].id == any;
        lemma_lookup_at(s, i);
        assert(out[i].id == any);
        lemma_lookup_at(out, i);
    }
}

/// With distinct identifiers, changing the record of the identifier at
/// position `i` changes that one position.
pub proof fn lemma_update_at(s: Seq<TaskRecord>, i: int, change: spec_fn(TaskRecord) -> TaskRecord)
    requires
        unique_ids(s),
        0 <= i < s.len(),
    ensures
        update_where_id(s, s[i].id, change) == s.update(i, change(s[i])),
{
    let out = update_where_id(s, s[i].id, change);
    assert forall|j: int| 0 <= j < s.len() implies out[j] == s.update(i, change(s[i]))[j] by {
        if j < i {
            assert(s[j].id != s[i].id);
        } else if i < j {
            assert(s[i].id != s[j].id);
        }
    }
    assert(out =~= s.update(i, change(s[i])));
}

/// Changing the record of an identifier that no record carries changes
/// nothing.
pub proof fn lemma_update_absent(
    s: Seq<TaskRecord>,
    id: Seq<char>,
    change: spec_fn(TaskRecord) -> TaskRecord,
)
    requires
        !has_id(s, id),
    ensures
        update_where_id(s, id, change) == s,
{
    let out = update_where_id(s, id, change);
    assert forall|j: int| 0 <= j < s.len() implies out[j] == s[j] by {
        if s[j].id == id {
            assert(has_id(s, id));
        }
    }
    assert(out =~= s);
}

/// The position of the first task with the identifier `id`.
pub fn find_index(tasks: &Vec<TaskInfo>, id: &str) -> (found: Option<usize>)
    ensures
        match found {
            Some(i) => i < tasks.len() && tasks[i as int].id@ == id@,
            None => !has_id(records(tasks@), id@),
        },
{
    let mut i: usize = 0;
    while i < tasks.len()
        invariant
            i <= tasks.len(),
            forall|j: int| 0 <= j < i ==> tasks[j].id@ != id@,
        decreases tasks.len() - i,
    {
        if same_text(tasks[i].id.as_str(), id) {
            return Some(i);
        }
        i = i + 1;
    }
    None
}

/// Takes the task with the identifier `id` out of the vector.
pub fn remove_by_id(tasks: &mut Vec<TaskInfo>, id: &str) -> (removed: Option<TaskInfo>)
    requires
        unique_ids(records(old(tasks)@)),
    ensures
        records(final(tasks)@) == without_id(records(old(tasks)@), id@),
        unique_ids(records(final(tasks)@)),
        match removed {
            Some(t) => lookup(records(old(tasks)@), id@) == Some(t@),
            None => lookup(records(old(tasks)@), id@).is_none(),
        },
{
    proof {
        lemma_without_id_unique(records(tasks@), id@);
    }
    match find_index(tasks, id) {
        Some(i) => {
            proof {
                lemma_lookup_at(records(tasks@), i as int);
                lemma_without_id_at(records(tasks@), i as int);
            }
            let task = tasks.remove(i);
            assert(records(tasks@) =~= records(old(tasks)@).remove(i as int));
            Some(task)
        },
        None => {
            proof {
                lemma_without_id_absent(records(tasks@), id@);
            }
            None
        },
    }
}

/// Puts `task` into the vector as the task of its identifier.
pub fn upsert_task(tasks: &mut Vec<TaskInfo>, task: TaskInfo)
    requires
        unique_ids(records(old(tasks)@)),
    ensures
        records(final(tasks)@) == upsert(records(old(tasks)@), task@),
        unique_ids(records(final(tasks)@)),
{
    proof {
        lemma_upsert(records(tasks@), task@);
    }
    let _ = remove_by_id(tasks, task.id.as_str());
    tasks.push(task);
    assert(records(tasks@) =~= upsert(records(old(tasks)@), task@));
}

/// A copy of the task with the identifier `id`.
pub fn get_by_id(tasks: &Vec<TaskInfo>, id: &str) -> (found: Option<TaskInfo>)
    requires
        unique_ids(records(tasks@)),
    ensures
        match found {
            Some(t) => lookup(records(tasks@), id@) == Some(t@),
            None => lookup(records(tasks@), id@).is_none(),
        },
{
    match find_index(tasks, id) {
        Some(i) => {
            proof {
                lemma_lookup_at(records(tasks@), i as int);
            }
            Some(tasks[i].clone())
        },
        None => None,
    }
}

/// A copy of every task, in the vector's order.
pub fn clone_tasks(tasks: &Vec<TaskInfo>) -> (copy: Vec<TaskInfo>)
    ensures
        records(copy@) == records(tasks@),
{
    let mut copy: Vec<TaskInfo> = Vec::new();
    let mut i: usize = 0;
    while i < tasks.len()
        invariant
            i <= tasks.len(),
            records(copy@) == records(tasks@).take(i as int),
        decreases tasks.len() - i,
    {
        let task = tasks[i].clone();
        proof {
            lemma_records_push(copy@, task);
            assert(records(tasks@).take(i as int).push(task@) =~= records(tasks@).take(i + 1));
        }
        copy.push(task);
        i = i + 1;
    }
    assert(records(tasks@).take(i as int) =~= records(tasks@));
    copy
}

} // verus!
