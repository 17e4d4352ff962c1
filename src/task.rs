use vstd::prelude::*;

use crate::store::{
    delete_write, list_write, set_active_write, task_write, Store, StoreError, Upsert, Write,
    I64_MAX,
};
use crate::utils::timestamp;

verus! {

/// One task of a task list.
pub struct Task {
    pub title: String,
    pub description: Option<String>,
    pub create_timestamp: u64,
    pub done_timestamp: u64,
    pub done: bool,
    /// Position of the task in its list, counted from 1; kept after removals.
    pub index: u64,
    /// Row identity; `None` until the task is first committed.
    pub id: Option<u64>,
    /// Identity of the owning task list.
    pub task_list_id: u64,
}

pub struct TaskView {
    pub title: Seq<char>,
    pub description: Option<Seq<char>>,
    pub create_timestamp: u64,
    pub done_timestamp: u64,
    pub done: bool,
    pub index: u64,
    pub id: Option<u64>,
    pub task_list_id: u64,
}

pub open spec fn opt_view(o: Option<String>) -> Option<Seq<char>> {
    match o {
        Some(s) => Some(s@),
        None => None,
    }
}

impl View for Task {
    type V = TaskView;

    open spec fn view(&self) -> TaskView {
        TaskView {
            title: self.title@,
            description: opt_view(self.description),
            create_timestamp: self.create_timestamp,
            done_timestamp: self.done_timestamp,
            done: self.done,
            index: self.index,
            id: self.id,
            task_list_id: self.task_list_id,
        }
    }
}

impl TaskView {
    /// Every integer field can be stored as a signed 64-bit column.
    pub open spec fn fits(self) -> bool {
        self.fits_in_list() && self.task_list_id <= I64_MAX
    }

    /// Every integer field but the owner's identity fits a signed 64-bit column.
    pub open spec fn fits_in_list(self) -> bool {
        &&& self.create_timestamp <= I64_MAX
        &&& self.done_timestamp <= I64_MAX
        &&& self.index <= I64_MAX
        &&& self.id is Some ==> self.id->Some_0 <= I64_MAX
    }

    pub open spec fn with_id(self, id: Option<u64>) -> TaskView {
        TaskView { id, ..self }
    }

    pub open spec fn marked(self, done: bool, ts: u64) -> TaskView {
        TaskView { done, done_timestamp: ts, ..self }
    }
}

/// Errors of the operations that address a task by its position.
pub enum TaskError {
    IndexOutOfRange,
    Store(StoreError),
}

impl Task {
    /// A blank task, to hold a list's slot while its task is worked on.
    fn placeholder() -> Task {
        Task {
            title: String::new(),
            description: None,
            create_timestamp: 0,
            done_timestamp: 0,
            done: false,
            index: 0,
            id: None,
            task_list_id: 0,
        }
    }

    /// Saves the task: updates its row when it has an identity, else inserts
    /// a row and takes the identity the store assigned.
    pub fn commit(&mut self, store: &mut Store) -> (r: Result<Upsert, StoreError>)
        ensures
            old(self)@.fits() ==> final(store)@ == old(store)@.push(task_write(old(self)@)),
            !old(self)@.fits() ==> final(store)@ == old(store)@,
            r is Ok ==> final(self)@ == old(self)@.with_id(Some(r->Ok_0.id())),
            r is Err ==> final(self)@ == old(self)@,
            r is Ok && old(self).id is Some ==> r->Ok_0 == Upsert::Updated(old(self).id->Some_0),
            r is Ok && old(self).id is None ==> r->Ok_0 is Inserted,
            r == Err::<Upsert, StoreError>(StoreError::OutOfRange) <==> !old(self)@.fits(),
    {
        let r = store.upsert_task(self);
        if let Ok(u) = r {
            self.id = Some(u.id());
        }
        r
    }
}

/// A task list with its tasks, in order of their index.
pub struct TaskList {
    pub tasks: Vec<Task>,
    pub create_timestamp: u64,
    pub name: Option<String>,
    /// Row identity; `None` until the list is first committed.
    pub id: Option<u64>,
}

pub struct TaskListView {
    pub tasks: Seq<TaskView>,
    pub create_timestamp: u64,
    pub name: Option<Seq<char>>,
    pub id: Option<u64>,
}

impl View for TaskList {
    type V = TaskListView;

    open spec fn view(&self) -> TaskListView {
        TaskListView {
            tasks: self.tasks@.map_values(|t: Task| t@),
            create_timestamp: self.create_timestamp,
            name: opt_view(self.name),
            id: self.id,
        }
    }
}

/// Largest index among the tasks, 0 for none.
pub open spec fn max_index(tasks: Seq<TaskView>) -> int
    decreases tasks.len(),
{
    if tasks.len() == 0 {
        0
    } else {
        let m = max_index(tasks.drop_last());
        if tasks.last().index > m {
            tasks.last().index as int
        } else {
            m
        }
    }
}

impl TaskListView {
    /// Indices start at 1 and strictly increase along the list, and every task
    /// of a stored list points at it.
    pub open spec fn wf(self) -> bool {
        &&& forall|i: int| 0 <= i < self.tasks.len() ==> #[trigger] self.tasks[i].index >= 1
        &&& forall|i: int, j: int|
            0 <= i < j < self.tasks.len() ==> self.tasks[i].index < self.tasks[j].index
        &&& self.id is Some ==> forall|i: int|
            0 <= i < self.tasks.len() ==> #[trigger] self.tasks[i].task_list_id
                == self.id->Some_0
    }

    /// What a list read from the store satisfies: well formed, with its
    /// identity and the identities of all its tasks.
    pub open spec fn loaded(self) -> bool {
        &&& self.wf()
        &&& self.id is Some
        &&& forall|i: int| 0 <= i < self.tasks.len() ==> (#[trigger] self.tasks[i]).id is Some
    }

    /// The index that the next added task gets.
    pub open spec fn next_index(self) -> int {
        if self.tasks.len() == 0 {
            1
        } else {
            self.tasks.last().index + 1
        }
    }

    pub open spec fn fits(self) -> bool {
        &&& self.create_timestamp <= I64_MAX
        &&& self.id is Some ==> self.id->Some_0 <= I64_MAX
        &&& forall|i: int| 0 <= i < self.tasks.len() ==> (#[trigger] self.tasks[i]).fits_in_list()
    }

    pub open spec fn in_range(self, index: int) -> bool {
        1 <= index <= self.tasks.len()
    }

    pub open spec fn with_task(self, t: TaskView) -> TaskListView {
        TaskListView { tasks: self.tasks.push(t), ..self }
    }

    /// The list with the task at 1-based `index` marked.
    pub open spec fn marked(self, index: int, done: bool, ts: u64) -> TaskListView {
        TaskListView {
            tasks: self.tasks.update(index - 1, self.tasks[index - 1].marked(done, ts)),
            ..self
        }
    }

    /// The list without the task at 1-based `index`.
    pub open spec fn without(self, index: int) -> TaskListView {
        TaskListView { tasks: self.tasks.remove(index - 1), ..self }
    }

    /// A successful commit: the list row updated when it had an identity and
    /// inserted when it had none, and the list left as `committed_as` says.
    pub open spec fn commit_result(self, after: TaskListView, u: Upsert) -> bool {
        &&& self.committed_as(after, u.id())
        &&& self.id is Some ==> u == Upsert::Updated(self.id->Some_0)
        &&& self.id is None ==> u is Inserted
    }

    /// The statements a successful commit sends: the list row, then each
    /// task's row, pointing at list `k`.
    pub open spec fn commit_writes(self, k: u64) -> Seq<Write> {
        seq![list_write(self.id, self.name, self.create_timestamp)] + Seq::new(
            self.tasks.len(),
            |i: int| task_write(TaskView { task_list_id: k, ..self.tasks[i] }),
        )
    }

    /// What a commit leaves: the identities filled in, the tasks pointing at
    /// the list, everything else as it was.
    pub open spec fn committed_as(self, after: TaskListView, id: u64) -> bool {
        &&& after.id == Some(id)
        &&& after.name == self.name
        &&& after.create_timestamp == self.create_timestamp
        &&& after.tasks.len() == self.tasks.len()
        &&& forall|i: int|
            0 <= i < self.tasks.len() ==> {
                &&& (#[trigger] after.tasks[i]).id is Some
                &&& self.tasks[i].id is Some ==> after.tasks[i].id == self.tasks[i].id
                &&& after.tasks[i] == TaskView {
                    id: after.tasks[i].id,
                    task_list_id: id,
                    ..self.tasks[i]
                }
            }
    }
}

impl TaskList {
    /// Appends a task; the caller gives it the index that `next_index` returns.
    pub fn add_task(&mut self, task: Task)
        ensures
            final(self)@ == old(self)@.with_task(task@),
    {
        self.tasks.push(task);
        assert(self@.tasks =~= old(self)@.tasks.push(task@));
    }

    /// The index for a new task: one past the last task's, or 1 on an empty
    /// list. `None` where that does not fit in a `u64`.
    pub fn next_index(&self) -> (r: Option<u64>)
        ensures
            r is Some <==> self@.next_index() <= u64::MAX,
            r is Some ==> r->Some_0 as int == self@.next_index(),
    {
        let n = self.tasks.len();
        if n == 0 {
            Some(1)
        } else {
            let last = self.tasks[n - 1].index;
            if last == u64::MAX {
                None
            } else {
                Some(last + 1)
            }
        }
    }

    fn mark(&mut self, index: usize, done: bool, ts: u64)
        requires
            old(self)@.in_range(index as int),
        ensures
            final(self)@ == old(self)@.marked(index as int, done, ts),
    {
        let mut t = Task::placeholder();
        self.tasks.set_and_swap(index - 1, &mut t);
        t.done = done;
        t.done_timestamp = ts;
        self.tasks.set_and_swap(index - 1, &mut t);
        assert(self@.tasks =~= old(self)@.marked(index as int, done, ts).tasks);
    }

    /// Marks the task at 1-based `index` done at time `now`.
    pub fn done_task_at(&mut self, index: usize, now: u64) -> (r: Result<(), TaskError>)
        ensures
            r is Ok <==> old(self)@.in_range(index as int),
            r is Ok ==> final(self)@ == old(self)@.marked(index as int, true, now),
            r is Err ==> r == Err::<(), TaskError>(TaskError::IndexOutOfRange) && final(self)@
                == old(self)@,
    {
        if index < 1 || index > self.tasks.len() {
            return Err(TaskError::IndexOutOfRange);
        }
        self.mark(index, true, now);
        Ok(())
    }

    /// Marks the task at 1-based `index` done at the current time.
    pub fn done_task(&mut self, index: usize) -> (r: Result<(), TaskError>)
        ensures
            r is Ok <==> old(self)@.in_range(index as int),
            r is Ok ==> exists|now: u64| final(self)@ == old(self)@.marked(index as int, true, now),
            r is Err ==> r == Err::<(), TaskError>(TaskError::IndexOutOfRange) && final(self)@
                == old(self)@,
    {
        if index < 1 || index > self.tasks.len() {
            return Err(TaskError::IndexOutOfRange);
        }
        let now = timestamp();
        self.done_task_at(index, now)
    }

    /// Marks the task at 1-based `index` not done, with a zero done time.
    pub fn undone_task(&mut self, index: usize) -> (r: Result<(), TaskError>)
        ensures
            r is Ok <==> old(self)@.in_range(index as int),
            r is Ok ==> final(self)@ == old(self)@.marked(index as int, false, 0),
            r is Err ==> r == Err::<(), TaskError>(TaskError::IndexOutOfRange) && final(self)@
                == old(self)@,
    {
        if index < 1 || index > self.tasks.len() {
            return Err(TaskError::IndexOutOfRange);
        }
        self.mark(index, false, 0);
        Ok(())
    }

    /// Takes the task at 1-based `index` out of the list.
    pub fn take_task(&mut self, index: usize) -> (r: Result<Task, TaskError>)
        ensures
            r is Ok <==> old(self)@.in_range(index as int),
            r is Ok ==> final(self)@ == old(self)@.without(index as int) && r->Ok_0@
                == old(self)@.tasks[index - 1],
            r is Err ==> r == Err::<Task, TaskError>(TaskError::IndexOutOfRange) && final(self)@
                == old(self)@,
    {
        if index < 1 || index > self.tasks.len() {
            return Err(TaskError::IndexOutOfRange);
        }
        let t = self.tasks.remove(index - 1);
        assert(self@.tasks =~= old(self)@.without(index as int).tasks);
        Ok(t)
    }

    /// Removes the task at 1-based `index` from the list and deletes its row
    /// at once; a task never stored has no row to delete. Out of range,
    /// neither the list nor the store is touched.
    pub fn remove_task(&mut self, index: usize, store: &mut Store) -> (r: Result<(), TaskError>)
        ensures
            !old(self)@.in_range(index as int) ==> final(store)@ == old(store)@,
            old(self)@.in_range(index as int) && old(self)@.tasks[index - 1].id is None ==> r is Ok
                && final(store)@ == old(store)@,
            old(self)@.in_range(index as int) && old(self)@.tasks[index - 1].id is Some ==> ({
                let id = old(self)@.tasks[index - 1].id->Some_0;
                &&& id <= I64_MAX ==> final(store)@ == old(store)@.push(delete_write(id))
                &&& id > I64_MAX ==> final(store)@ == old(store)@ && r is Err
            }),
            old(self)@.in_range(index as int) ==> final(self)@ == old(self)@.without(index as int),
            !old(self)@.in_range(index as int) ==> r == Err::<(), TaskError>(
                TaskError::IndexOutOfRange,
            ) && final(self)@ == old(self)@,
            r is Ok ==> old(self)@.in_range(index as int),
            old(self)@.in_range(index as int) ==> !(r matches Err(TaskError::IndexOutOfRange)),
    {
        match self.take_task(index) {
            Err(e) => Err(e),
            Ok(t) => match t.id {
                None => Ok(()),
                Some(id) => match store.delete_task(id) {
                    Ok(()) => Ok(()),
                    Err(e) => Err(TaskError::Store(e)),
                },
            },
        }
    }

    /// Points the store's active slot at this list, which must be stored.
    pub fn set_active(&self, store: &mut Store) -> (r: Result<(), StoreError>)
        requires
            self.id is Some,
        ensures
            self.id->Some_0 <= I64_MAX ==> final(store)@ == old(store)@.push(
                set_active_write(self.id->Some_0),
            ),
            self.id->Some_0 > I64_MAX ==> final(store)@ == old(store)@,
            r == Err::<(), StoreError>(StoreError::OutOfRange) <==> self.id->Some_0 > I64_MAX,
    {
        store.set_active(self.id.unwrap())
    }

    /// Whether every value fits the store's signed 64-bit columns.
    pub fn fits(&self) -> (r: bool)
        ensures
            r == self@.fits(),
    {
        if self.create_timestamp > I64_MAX {
            return false;
        }
        match self.id {
            Some(k) => if k > I64_MAX {
                return false;
            },
            None => {},
        }
        let mut i: usize = 0;
        while i < self.tasks.len()
            invariant
                0 <= i <= self.tasks@.len(),
                forall|k: int| 0 <= k < i ==> (#[trigger] self@.tasks[k]).fits_in_list(),
            decreases self.tasks@.len() - i,
        {
            let t = &self.tasks[i];
            assert(self@.tasks[i as int] == t@);
            if t.create_timestamp > I64_MAX || t.done_timestamp > I64_MAX || t.index > I64_MAX {
                return false;
            }
            match t.id {
                Some(k) => if k > I64_MAX {
                    return false;
                },
                None => {},
            }
            i = i + 1;
        }
        true
    }

    /// Saves the list row first, then each task in order, every task pointing
    /// at the list's identity. A value out of range sends nothing.
    pub fn commit(&mut self, store: &mut Store) -> (r: Result<Upsert, StoreError>)
        ensures
            r == Err::<Upsert, StoreError>(StoreError::OutOfRange) <==> !old(self)@.fits(),
            !old(self)@.fits() ==> final(self)@ == old(self)@ && final(store)@ == old(store)@,
            r is Ok ==> old(self)@.commit_result(final(self)@, r->Ok_0),
            r is Ok ==> final(store)@ == old(store)@ + old(self)@.commit_writes(r->Ok_0.id()),
            old(self)@.fits() ==> exists|k: u64, j: int|
                1 <= j <= old(self)@.tasks.len() + 1 && final(store)@ == old(store)@ + #[trigger] old(
                self,
            )@.commit_writes(k).take(j),
            old(self).id is Some ==> final(self).id == old(self).id,
            old(self)@.wf() && r is Ok ==> final(self)@.wf(),
    {
        if !self.fits() {
            return Err(StoreError::OutOfRange);
        }
        let u = store.upsert_task_list(self.id, &self.name, self.create_timestamp);
        assert(old(self)@.commit_writes(0).take(1) =~= seq![
            list_write(old(self).id, opt_view(old(self).name), old(self).create_timestamp),
        ]);
        let u = match u {
            Ok(u) => u,
            Err(e) => return Err(e),
        };
        let id = u.id();
        self.id = Some(id);
        let n = self.tasks.len();
        let mut i: usize = 0;
        assert(old(self)@.commit_writes(id).take(1) =~= seq![
            list_write(old(self).id, opt_view(old(self).name), old(self).create_timestamp),
        ]);
        while i < n
            invariant
                n == self.tasks.len(),
                n == old(self)@.tasks.len(),
                0 <= i <= n,
                self.id == Some(id),
                u.id() == id,
                old(self).id is Some ==> u == Upsert::Updated(old(self).id->Some_0),
                old(self).id is None ==> u is Inserted,
                id <= I64_MAX,
                old(self)@.fits(),
                self.name == old(self).name,
                self.create_timestamp == old(self).create_timestamp,
                store@ == old(store)@ + old(self)@.commit_writes(id).take(i + 1),
                forall|k: int|
                    i <= k < n ==> (#[trigger] self@.tasks[k]) == old(self)@.tasks[k],
                forall|k: int|
                    0 <= k < i ==> {
                        &&& (#[trigger] self@.tasks[k]).id is Some
                        &&& old(self)@.tasks[k].id is Some ==> self@.tasks[k].id == old(
                            self,
                        )@.tasks[k].id
                        &&& self@.tasks[k] == TaskView {
                            id: self@.tasks[k].id,
                            task_list_id: id,
                            ..old(self)@.tasks[k]
                        }
                    },
            decreases n - i,
        {
            let ghost before = self@.tasks;
            let ghost before_vec = self.tasks@;
            let mut t = Task::placeholder();
            let ghost ph = t;
            self.tasks.set_and_swap(i, &mut t);
            assert(self.tasks@ == before_vec.update(i as int, ph));
            t.task_list_id = id;
            proof {
                assert(before[i as int] == old(self)@.tasks[i as int]);
                assert(old(self)@.tasks[i as int].fits_in_list());
                assert(t@ == TaskView { task_list_id: id, ..old(self)@.tasks[i as int] });
                assert(old(self)@.commit_writes(id).take(i + 2) =~= old(self)@.commit_writes(
                    id,
                ).take(i + 1).push(task_write(t@)));
            }
            let r = t.commit(store);
            let ghost saved = t;
            self.tasks.set_and_swap(i, &mut t);
            assert(self.tasks@ =~= before_vec.update(i as int, saved));
            assert(self@.tasks =~= before.update(i as int, saved@));
            match r {
                Err(e) => {
                    assert(store@ == old(store)@ + old(self)@.commit_writes(id).take(i + 2));
                    return Err(e);
                },
                Ok(_) => {},
            }
            proof {
                assert(saved@ == TaskView {
                    id: saved@.id,
                    task_list_id: id,
                    ..old(self)@.tasks[i as int]
                });
            }
            i = i + 1;
        }
        assert(old(self)@.commit_writes(id).take(n + 1) =~= old(self)@.commit_writes(id));
        Ok(u)
    }
}

} // verus!
