//! Dropping tasks that ended long enough ago.

use vstd::prelude::*;
use crate::sequences::lemma_filter_take_step;
use super::info::{TaskInfo, TaskRecord};
use super::table::{lemma_filter_unique, records, unique_ids};

verus! {

/// The test that a record's completion time lies before `cutoff`. With
/// `ended_only`, the record must also be in a terminal state. A record
/// without a completion time never passes.
pub open spec fn expired(cutoff: int, ended_only: bool) -> spec_fn(TaskRecord) -> bool {
    |r: TaskRecord|
        match r.completed_at {
            Some(at) => at < cutoff && (ended_only ==> r.status.is_terminal()),
            None => false,
        }
}

/// The test that a record stays: it is not [`expired`].
pub open spec fn unexpired(cutoff: int, ended_only: bool) -> spec_fn(TaskRecord) -> bool {
    |r: TaskRecord| !expired(cutoff, ended_only)(r)
}

/// What is left after the records that completed before `now - max_age_ms`
/// are dropped.
pub open spec fn retained(s: Seq<TaskRecord>, now: i64, max_age_ms: i64, ended_only: bool) -> Seq<
    TaskRecord,
> {
    s.filter(unexpired(now - max_age_ms, ended_only))
}

/// Whether `task` completed before `cutoff`.
pub fn is_expired(task: &TaskInfo, cutoff: i128, ended_only: bool) -> (yes: bool)
    ensures
        yes == expired(cutoff as int, ended_only)(task@),
{
    match task.completed_at {
        Some(at) => (at as i128) < cutoff && (!ended_only || task.status.ended()),
        None => false,
    }
}

/// Drops from the vector every task that completed before
/// `now - max_age_ms`, and says how many left.
pub fn remove_expired(tasks: &mut Vec<TaskInfo>, now: i64, max_age_ms: i64, ended_only: bool) -> (removed:
    usize)
    ensures
        records(final(tasks)@) == retained(records(old(tasks)@), now, max_age_ms, ended_only),
        removed == old(tasks).len() - final(tasks).len(),
        unique_ids(records(old(tasks)@)) ==> unique_ids(records(final(tasks)@)),
{
    let ghost before = records(tasks@);
    let ghost keep = unexpired(now - max_age_ms, ended_only);
    let cutoff: i128 = (now as i128) - (max_age_ms as i128);
    let mut i: usize = 0;
    let mut removed: usize = 0;
    proof {
        reveal(Seq::filter);
        assert(before.take(0).filter(keep) =~= records(tasks@).take(0));
        assert(records(tasks@).skip(0) =~= before.skip(0));
        if unique_ids(before) {
            lemma_filter_unique(before, keep);
        }
    }
    while i < tasks.len()
        invariant
            i <= tasks.len(),
            tasks.len() + removed == before.len(),
            before.len() == old(tasks).len(),
            cutoff == now - max_age_ms,
            keep == unexpired(now - max_age_ms, ended_only),
            records(tasks@).take(i as int) == before.take(i + removed).filter(keep),
            records(tasks@).skip(i as int) == before.skip(i + removed),
        decreases tasks.len() - i,
    {
        let ghost k: int = i + removed;
        let ghost prev = records(tasks@);
        proof {
            lemma_filter_take_step(before, keep, k);
            assert(prev.skip(i as int)[0] == before.skip(k)[0]);
        }
        if is_expired(&tasks[i], cutoff, ended_only) {
            let _ = tasks.remove(i);
            removed = removed + 1;
            proof {
                assert(records(tasks@) =~= prev.remove(i as int));
                assert(records(tasks@).take(i as int) =~= prev.take(i as int));
                assert(records(tasks@).skip(i as int) =~= prev.skip(i as int).skip(1));
                assert(before.skip(k).skip(1) =~= before.skip(k + 1));
            }
        } else {
            i = i + 1;
            proof {
                assert(prev.take(i as int) =~= prev.take(i - 1).push(prev[i - 1]));
                assert(prev.skip(i as int) =~= prev.skip(i - 1).skip(1));
                assert(before.skip(k).skip(1) =~= before.skip(k + 1));
            }
        }
    }
    proof {
        assert(records(tasks@).take(i as int) =~= records(tasks@));
        assert(before.take(before.len() as int) =~= before);
    }
    removed
}

} // verus!
