use vstd::prelude::*;

use crate::app::new_task_view;
use crate::store::{Sql, Upsert};
use crate::task::{max_index, TaskListView, TaskView};

verus! {

proof fn lemma_max_is_last(tasks: Seq<TaskView>)
    requires
        tasks.len() > 0,
        forall|i: int| 0 <= i < tasks.len() ==> #[trigger] tasks[i].index >= 1,
        forall|i: int, j: int| 0 <= i < j < tasks.len() ==> tasks[i].index < tasks[j].index,
    ensures
        max_index(tasks) == tasks.last().index,
    decreases tasks.len(),
{
    let rest = tasks.drop_last();
    if rest.len() > 0 {
        assert forall|i: int| 0 <= i < rest.len() implies #[trigger] rest[i].index >= 1 by {
            assert(rest[i] == tasks[i]);
        }
        assert forall|i: int, j: int| 0 <= i < j < rest.len() implies rest[i].index
            < rest[j].index by {
            assert(rest[i] == tasks[i] && rest[j] == tasks[j]);
        }
        lemma_max_is_last(rest);
        assert(rest.last() == tasks[tasks.len() - 2]);
        assert(tasks[tasks.len() - 2].index < tasks[tasks.len() - 1].index);
    } else {
        assert(max_index(rest) == 0);
        assert(tasks[tasks.len() - 1].index >= 1);
    }
}

/// On a well-formed list the next index is one past the largest index, and
/// 1 on an empty list.
pub proof fn law_next_index_is_max_plus_one(l: TaskListView)
    requires
        l.wf(),
    ensures
        l.next_index() == max_index(l.tasks) + 1,
        l.tasks.len() == 0 ==> l.next_index() == 1,
        forall|i: int| 0 <= i < l.tasks.len() ==> #[trigger] l.tasks[i].index < l.next_index(),
{
    if l.tasks.len() > 0 {
        lemma_max_is_last(l.tasks);
        assert forall|i: int| 0 <= i < l.tasks.len() implies #[trigger] l.tasks[i].index
            < l.next_index() by {
            if i < l.tasks.len() - 1 {
                assert(l.tasks[i].index < l.tasks[l.tasks.len() - 1].index);
            }
        }
    }
}

/// Adding a task gives it the largest index so far plus one (1 on an empty
/// list) and keeps the list well formed, so any run of additions keeps this.
pub proof fn law_added_task_index(
    l: TaskListView,
    title: Seq<char>,
    description: Option<Seq<char>>,
    now: u64,
)
    requires
        l.wf(),
        l.id is Some,
        l.next_index() <= u64::MAX,
    ensures
        ({
            let after = l.with_task(
                new_task_view(title, description, now, l.next_index() as u64, l.id->Some_0),
            );
            &&& after.tasks.last().index == max_index(l.tasks) + 1
            &&& l.tasks.len() == 0 ==> after.tasks.last().index == 1
            &&& after.wf()
            &&& after.next_index() == max_index(after.tasks) + 1
        }),
{
    law_next_index_is_max_plus_one(l);
    let after = l.with_task(
        new_task_view(title, description, now, l.next_index() as u64, l.id->Some_0),
    );
    assert forall|i: int| 0 <= i < after.tasks.len() implies #[trigger] after.tasks[i].index
        >= 1 by {
        if i < l.tasks.len() {
            assert(after.tasks[i] == l.tasks[i]);
        }
    }
    assert forall|i: int, j: int| 0 <= i < j < after.tasks.len() implies after.tasks[i].index
        < after.tasks[j].index by {
        assert(after.tasks[i] == l.tasks[i]);
        assert(l.tasks[i].index < l.next_index());
    }
    assert(after.wf());
    law_next_index_is_max_plus_one(after);
}

/// Removing a task other than the last keeps the next index, which stays
/// above every index the list had, the removed one included.
pub proof fn law_removed_index_not_reused(l: TaskListView, index: int)
    requires
        l.wf(),
        1 <= index < l.tasks.len(),
    ensures
        l.without(index).next_index() == l.next_index(),
        l.without(index).wf(),
        forall|i: int| 0 <= i < l.tasks.len() ==> #[trigger] l.tasks[i].index < l.without(
            index,
        ).next_index(),
{
    law_next_index_is_max_plus_one(l);
    let w = l.without(index);
    assert(w.tasks.last() == l.tasks.last());
    assert forall|i: int| 0 <= i < w.tasks.len() implies #[trigger] w.tasks[i].index >= 1 by {
        if i < index - 1 {
            assert(w.tasks[i] == l.tasks[i]);
        } else {
            assert(w.tasks[i] == l.tasks[i + 1]);
        }
    }
    assert forall|i: int, j: int| 0 <= i < j < w.tasks.len() implies w.tasks[i].index
        < w.tasks[j].index by {
        let a = if i < index - 1 { i } else { i + 1 };
        let b = if j < index - 1 { j } else { j + 1 };
        assert(w.tasks[i] == l.tasks[a]);
        assert(w.tasks[j] == l.tasks[b]);
    }
    assert forall|i: int| 0 <= i < w.tasks.len() implies #[trigger] w.tasks[i].task_list_id
        == w.id->Some_0 || w.id is None by {
        if i < index - 1 {
            assert(w.tasks[i] == l.tasks[i]);
        } else {
            assert(w.tasks[i] == l.tasks[i + 1]);
        }
    }
}

/// Marking a task done at any time and then not done leaves it not done with
/// a zero done time, as marking it not done directly would.
pub proof fn law_done_then_undone(l: TaskListView, index: int, ts: u64)
    requires
        l.in_range(index),
    ensures
        l.marked(index, true, ts).marked(index, false, 0) == l.marked(index, false, 0),
        !l.marked(index, true, ts).marked(index, false, 0).tasks[index - 1].done,
        l.marked(index, true, ts).marked(index, false, 0).tasks[index - 1].done_timestamp == 0,
{
    assert(l.marked(index, true, ts).marked(index, false, 0).tasks =~= l.marked(
        index,
        false,
        0,
    ).tasks);
}

/// Committing a new list twice inserts its row once: the first commit sends
/// one insert of the list row and assigns the identity; the second sends
/// updates only, of that same row and of rows the tasks already have, and
/// changes nothing in the list.
pub proof fn law_commit_twice(a: TaskListView, b: TaskListView, c: TaskListView, u1: Upsert, u2: Upsert)
    requires
        a.id is None,
        a.commit_result(b, u1),
        b.commit_result(c, u2),
    ensures
        u1 is Inserted,
        u2 == Upsert::Updated(u1.id()),
        b.id == Some(u1.id()),
        c == b,
        a.commit_writes(u1.id())[0].kind == Sql::InsertTaskList,
        forall|i: int|
            1 <= i < a.commit_writes(u1.id()).len() ==> (#[trigger] a.commit_writes(
                u1.id(),
            )[i]).kind != Sql::InsertTaskList,
        forall|i: int|
            0 <= i < b.commit_writes(u2.id()).len() ==> {
                &&& (#[trigger] b.commit_writes(u2.id())[i]).kind != Sql::InsertTaskList
                &&& b.commit_writes(u2.id())[i].kind != Sql::InsertTask
            },
{
    assert(c.tasks =~= b.tasks);
    assert forall|i: int| 0 <= i < b.commit_writes(u2.id()).len() implies {
        &&& (#[trigger] b.commit_writes(u2.id())[i]).kind != Sql::InsertTaskList
        &&& b.commit_writes(u2.id())[i].kind != Sql::InsertTask
    } by {
        if i > 0 {
            assert(b.tasks[i - 1].id is Some);
        }
    }
}

} // verus!
