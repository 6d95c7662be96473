use crate::status::TaskStatus;
use crate::task::{
    line_of, lines_of, marked, next_id, of_status, set_status, with_id, without_id, Task,
};
use vstd::prelude::*;

verus! {

/// Whether every task of `ts` got its id from the tasks before it, as
/// adding one task at a time to an empty collection numbers them.
pub open spec fn numbered_in_order(ts: Seq<Task>) -> bool {
    forall|i: int| 0 <= i < ts.len() ==> #[trigger] ts[i].id == next_id(ts.take(i))
}

/// Adding a task numbered after a collection that was numbered in order
/// keeps it numbered in order.
pub proof fn lemma_add_keeps_order(ts: Seq<Task>, t: Task)
    requires
        numbered_in_order(ts),
        t.id == next_id(ts),
    ensures
        numbered_in_order(ts.push(t)),
{
    let grown = ts.push(t);
    assert forall|i: int| 0 <= i < grown.len() implies #[trigger] grown[i].id == next_id(
        grown.take(i),
    ) by {
        assert(grown.take(i) =~= ts.take(i));
        if i < ts.len() {
            assert(grown[i] == ts[i]);
        } else {
            assert(ts.take(i) =~= ts);
        }
    }
}

/// Tasks added one at a time to an empty collection carry the ids
/// 1, 2, ..., N in the order in which they were added.
pub proof fn lemma_added_ids_count_up(ts: Seq<Task>)
    requires
        numbered_in_order(ts),
    ensures
        forall|i: int| 0 <= i < ts.len() ==> #[trigger] ts[i].id == i + 1,
    decreases ts.len(),
{
    if ts.len() > 0 {
        let shorter = ts.drop_last();
        assert forall|i: int| 0 <= i < shorter.len() implies #[trigger] shorter[i].id == next_id(
            shorter.take(i),
        ) by {
            assert(shorter.take(i) =~= ts.take(i));
            assert(ts[i].id == next_id(ts.take(i)));
        }
        lemma_added_ids_count_up(shorter);
        let n = ts.len() - 1;
        assert(ts[n].id == next_id(ts.take(n)));
        if n > 0 {
            assert(ts.take(n).last() == shorter[n - 1]);
        }
        assert forall|i: int| 0 <= i < ts.len() implies #[trigger] ts[i].id == i + 1 by {
            if i < n {
                assert(ts[i] == shorter[i]);
            }
        }
    }
}

/// Deleting by id keeps the other tasks in their order, removes as many
/// tasks as carry that id, and changes nothing when none does.
pub proof fn lemma_delete_removes_matches(ts: Seq<Task>, id: int)
    ensures
        without_id(ts, id).len() == ts.len() - with_id(ts, id).len(),
        forall|i: int|
            0 <= i < without_id(ts, id).len() ==> #[trigger] without_id(ts, id)[i].id != id,
        (forall|i: int| 0 <= i < ts.len() ==> #[trigger] ts[i].id != id) ==> without_id(ts, id)
            == ts,
    decreases ts.len(),
{
    reveal(Seq::filter);
    broadcast use vstd::seq_lib::group_filter_ensures;

    if ts.len() > 0 {
        let shorter = ts.drop_last();
        lemma_delete_removes_matches(shorter, id);
        if forall|i: int| 0 <= i < ts.len() ==> #[trigger] ts[i].id != id {
            assert forall|i: int| 0 <= i < shorter.len() implies #[trigger] shorter[i].id
                != id by {
                assert(ts[i] == shorter[i]);
            }
            assert(ts.last().id != id);
            assert(shorter.push(ts.last()) =~= ts);
        }
    }
}

/// Clearing the collection and then adding one task leaves that task alone,
/// numbered 1.
pub proof fn lemma_clear_then_add(cleared: Seq<Task>, t: Task)
    requires
        cleared.len() == 0,
        t.id == next_id(cleared),
    ensures
        cleared.push(t).len() == 1,
        cleared.push(t)[0].id == 1,
{
}

/// A task marked done appears, done, in the listing of done tasks.
pub proof fn lemma_marked_done_is_listed(ts: Seq<Task>, id: int, k: int)
    requires
        0 <= k < ts.len(),
        ts[k].id == id,
    ensures
        of_status(marked(ts, id, TaskStatus::Done), TaskStatus::Done).contains(
            set_status(ts[k], TaskStatus::Done),
        ),
        lines_of(of_status(marked(ts, id, TaskStatus::Done), TaskStatus::Done)).contains(
            line_of(set_status(ts[k], TaskStatus::Done)),
        ),
{
    broadcast use vstd::seq_lib::group_filter_ensures;

    let after = marked(ts, id, TaskStatus::Done);
    let done = set_status(ts[k], TaskStatus::Done);
    assert(after[k] == done);
    assert(after.filter(|t: Task| t.status == TaskStatus::Done).contains(after[k]));
    let listed = of_status(after, TaskStatus::Done);
    let j = choose|j: int| 0 <= j < listed.len() && listed[j] == done;
    assert(lines_of(listed)[j] == line_of(done));
}

/// A listing by status holds only tasks of that status.
pub proof fn lemma_listing_keeps_status(ts: Seq<Task>, status: TaskStatus)
    ensures
        forall|i: int|
            0 <= i < of_status(ts, status).len() ==> #[trigger] of_status(ts, status)[i].status
                == status,
{
    broadcast use vstd::seq_lib::group_filter_ensures;

    assert forall|i: int| 0 <= i < of_status(ts, status).len() implies #[trigger] of_status(
        ts,
        status,
    )[i].status == status by {
        ts.lemma_filter_pred(|t: Task| t.status == status, i);
    }
}

} // verus!
