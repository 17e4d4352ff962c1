use vstd::prelude::*;

use crate::painter::{paints_list, Painter};
use crate::store::{
    clear_active_write, delete_write, init_writes, list_write, set_active_write, Store, StoreError,
    Write, I64_MAX,
};
use crate::task::{opt_view, Task, TaskError, TaskList, TaskListView, TaskView};
use crate::utils::timestamp;

verus! {

pub struct AddArguments {
    /// the title of the new task
    pub title: String,
    /// the optional description of the new task
    pub description: Option<String>,
}

pub struct RemoveArguments {
    /// the index of the task to remove, counted from 1
    pub index: usize,
}

pub struct DoneArguments {
    /// the index of the task to mark done, counted from 1
    pub index: usize,
}

pub struct UndoneArguments {
    /// the index of the task to mark not done, counted from 1
    pub index: usize,
}

pub struct CreateArguments {
    /// the optional name of the task list
    pub name: Option<String>,
}

pub struct CommitArguments {}

pub enum AppError {
    /// The command needs an active task list and there is none.
    NoActiveList,
    /// The index names no task of the active list.
    IndexOutOfRange,
    /// The last task's index is the largest a `u64` holds.
    IndexExhausted,
    Store(StoreError),
}

pub open spec fn new_task_view(
    title: Seq<char>,
    description: Option<Seq<char>>,
    now: u64,
    index: u64,
    list_id: u64,
) -> TaskView {
    TaskView {
        title,
        description,
        create_timestamp: now,
        done_timestamp: 0,
        done: false,
        index,
        id: None,
        task_list_id: list_id,
    }
}

/// Appends a new, not yet stored task to a stored list, with the next index
/// and creation time `now`.
pub fn append_task(list: &mut TaskList, title: String, description: Option<String>, now: u64) -> (r:
    Result<(), AppError>)
    requires
        old(list).id is Some,
    ensures
        r is Ok <==> old(list)@.next_index() <= u64::MAX,
        r is Ok ==> final(list)@ == old(list)@.with_task(
            new_task_view(
                title@,
                opt_view(description),
                now,
                old(list)@.next_index() as u64,
                old(list).id->Some_0,
            ),
        ),
        r is Err ==> r == Err::<(), AppError>(AppError::IndexExhausted) && final(list)@ == old(
            list,
        )@,
{
    let index = match list.next_index() {
        Some(i) => i,
        None => return Err(AppError::IndexExhausted),
    };
    let task_list_id = list.id.unwrap();
    list.add_task(
        Task {
            title,
            description,
            create_timestamp: now,
            done_timestamp: 0,
            done: false,
            index,
            id: None,
            task_list_id,
        },
    );
    Ok(())
}

fn from_task_error(e: TaskError) -> (r: AppError)
    ensures
        e is IndexOutOfRange <==> r is IndexOutOfRange,
        e is Store ==> r is Store,
{
    match e {
        TaskError::IndexOutOfRange => AppError::IndexOutOfRange,
        TaskError::Store(s) => AppError::Store(s),
    }
}

/// Runs one command at a time against the store: reads the active list,
/// changes it, and commits it back.
pub struct Application {
    store: Store,
}

impl View for Application {
    type V = Seq<Write>;

    /// The statements sent to the store so far.
    closed spec fn view(&self) -> Seq<Write> {
        self.store@
    }
}

impl Application {
    /// Opens the store at `path`, creating its tables where missing.
    pub fn new(path: &str) -> (r: Result<Application, AppError>)
        ensures
            r is Ok ==> r->Ok_0@ == init_writes(),
            r is Err ==> r->Err_0 is Store,
    {
        match Store::open(path) {
            Ok(store) => Ok(Application { store }),
            Err(e) => Err(AppError::Store(e)),
        }
    }

    fn get_active_task_list(&self) -> (r: Result<TaskList, AppError>)
        ensures
            r is Ok ==> r->Ok_0@.loaded(),
            r is Err ==> r->Err_0 is NoActiveList || r->Err_0 is Store,
    {
        match self.store.load_active_list() {
            Ok(Some(l)) => Ok(l),
            Ok(None) => Err(AppError::NoActiveList),
            Err(e) => Err(AppError::Store(e)),
        }
    }

    /// Commits the list; gives the list's identity.
    fn save(&mut self, list: &mut TaskList) -> (r: Result<u64, AppError>)
        ensures
            r is Err ==> r->Err_0 is Store,
            r is Ok ==> final(list).id == Some(r->Ok_0),
            r is Ok ==> final(self)@ == old(self)@ + old(list)@.commit_writes(r->Ok_0),
            r is Ok && old(list).id is Some ==> r->Ok_0 == old(list).id->Some_0,
    {
        match list.commit(&mut self.store) {
            Ok(u) => Ok(u.id()),
            Err(e) => Err(AppError::Store(e)),
        }
    }

    /// Adds a task to the active list, with the next index, and commits the
    /// list.
    pub fn add(&mut self, args: AddArguments) -> (r: Result<(), AppError>)
        ensures
            r is Ok ==> exists|l: TaskListView, now: u64|
                #![trigger l.with_task(new_task_view(args.title@, opt_view(args.description), now, l.next_index() as u64, l.id->Some_0))]
                {
                    &&& l.loaded()
                    &&& l.next_index() <= u64::MAX
                    &&& final(self)@ == old(self)@ + l.with_task(
                        new_task_view(
                            args.title@,
                            opt_view(args.description),
                            now,
                            l.next_index() as u64,
                            l.id->Some_0,
                        ),
                    ).commit_writes(l.id->Some_0)
                },
            r matches Err(AppError::NoActiveList) ==> final(self)@ == old(self)@,
            r matches Err(AppError::IndexExhausted) ==> final(self)@ == old(self)@,
            !(r matches Err(AppError::IndexOutOfRange)),
    {
        let mut list = match self.get_active_task_list() {
            Ok(l) => l,
            Err(e) => return Err(e),
        };
        let ghost loaded = list@;
        let now = timestamp();
        match append_task(&mut list, args.title, args.description, now) {
            Ok(()) => {},
            Err(e) => return Err(e),
        }
        let ghost added = list@;
        match self.save(&mut list) {
            Ok(_) => {
                assert(added == loaded.with_task(
                    new_task_view(
                        args.title@,
                        opt_view(args.description),
                        now,
                        loaded.next_index() as u64,
                        loaded.id->Some_0,
                    ),
                ));
                Ok(())
            },
            Err(e) => Err(e),
        }
    }

    /// Removes the task at the index from the active list, deleting its row,
    /// and commits the list.
    pub fn remove(&mut self, args: RemoveArguments) -> (r: Result<(), AppError>)
        ensures
            r is Ok ==> exists|l: TaskListView|
                {
                    &&& #[trigger] l.loaded()
                    &&& l.in_range(args.index as int)
                    &&& final(self)@ == old(self)@.push(
                        delete_write(l.tasks[args.index - 1].id->Some_0),
                    ) + l.without(args.index as int).commit_writes(l.id->Some_0)
                },
            r matches Err(AppError::IndexOutOfRange) ==> final(self)@ == old(self)@ && exists|
                l: TaskListView,
            | #[trigger] l.loaded() && !l.in_range(args.index as int),
            r matches Err(AppError::NoActiveList) ==> final(self)@ == old(self)@,
    {
        let mut list = match self.get_active_task_list() {
            Ok(l) => l,
            Err(e) => return Err(e),
        };
        match list.remove_task(args.index, &mut self.store) {
            Ok(()) => {},
            Err(e) => return Err(from_task_error(e)),
        }
        match self.save(&mut list) {
            Ok(_) => Ok(()),
            Err(e) => Err(e),
        }
    }

    /// Marks the task at the index done now and commits the list.
    pub fn done(&mut self, args: DoneArguments) -> (r: Result<(), AppError>)
        ensures
            r is Ok ==> exists|l: TaskListView, now: u64|
                {
                    &&& #[trigger] l.loaded()
                    &&& l.in_range(args.index as int)
                    &&& final(self)@ == old(self)@ + #[trigger] l.marked(
                        args.index as int,
                        true,
                        now,
                    ).commit_writes(l.id->Some_0)
                },
            r matches Err(AppError::IndexOutOfRange) ==> final(self)@ == old(self)@ && exists|
                l: TaskListView,
            | #[trigger] l.loaded() && !l.in_range(args.index as int),
            r matches Err(AppError::NoActiveList) ==> final(self)@ == old(self)@,
    {
        let mut list = match self.get_active_task_list() {
            Ok(l) => l,
            Err(e) => return Err(e),
        };
        let ghost loaded = list@;
        if args.index < 1 || args.index > list.tasks.len() {
            return Err(AppError::IndexOutOfRange);
        }
        let now = timestamp();
        match list.done_task_at(args.index, now) {
            Ok(()) => {},
            Err(e) => return Err(from_task_error(e)),
        }
        match self.save(&mut list) {
            Ok(_) => {
                assert(loaded.loaded());
                Ok(())
            },
            Err(e) => Err(e),
        }
    }

    /// Marks the task at the index not done and commits the list.
    pub fn undone(&mut self, args: UndoneArguments) -> (r: Result<(), AppError>)
        ensures
            r is Ok ==> exists|l: TaskListView|
                {
                    &&& #[trigger] l.loaded()
                    &&& l.in_range(args.index as int)
                    &&& final(self)@ == old(self)@ + l.marked(args.index as int, false, 0).commit_writes(
                        l.id->Some_0,
                    )
                },
            r matches Err(AppError::IndexOutOfRange) ==> final(self)@ == old(self)@ && exists|
                l: TaskListView,
            | #[trigger] l.loaded() && !l.in_range(args.index as int),
            r matches Err(AppError::NoActiveList) ==> final(self)@ == old(self)@,
    {
        let mut list = match self.get_active_task_list() {
            Ok(l) => l,
            Err(e) => return Err(e),
        };
        let ghost loaded = list@;
        match list.undone_task(args.index) {
            Ok(()) => {},
            Err(e) => return Err(from_task_error(e)),
        }
        match self.save(&mut list) {
            Ok(_) => {
                assert(loaded.loaded());
                Ok(())
            },
            Err(e) => Err(e),
        }
    }

    /// Stores a new, empty list and makes it the active one.
    pub fn create(&mut self, args: CreateArguments) -> (r: Result<(), AppError>)
        ensures
            r is Ok ==> exists|now: u64, k: u64|
                #![trigger list_write(None, opt_view(args.name), now), set_active_write(k)]
                final(self)@ == old(self)@ + seq![
                    list_write(None, opt_view(args.name), now),
                    set_active_write(k),
                ],
            !(r matches Err(AppError::IndexOutOfRange)),
            !(r matches Err(AppError::NoActiveList)),
    {
        let now = timestamp();
        let mut list = TaskList { tasks: Vec::new(), create_timestamp: now, name: args.name, id: None };
        let ghost fresh = list@;
        let k = match self.save(&mut list) {
            Ok(k) => k,
            Err(e) => return Err(e),
        };
        match list.set_active(&mut self.store) {
            Ok(()) => {
                assert(fresh.commit_writes(k) =~= seq![list_write(None, opt_view(args.name), now)]);
                if k > I64_MAX {
                    assert(false);
                }
                assert(self@ =~= old(self)@ + seq![
                    list_write(None, opt_view(args.name), now),
                    set_active_write(k),
                ]);
                Ok(())
            },
            Err(e) => Err(AppError::Store(e)),
        }
    }

    /// Points the active slot at no list; lists and tasks stay stored.
    pub fn commit(&mut self, _args: CommitArguments) -> (r: Result<(), AppError>)
        ensures
            final(self)@ == old(self)@.push(clear_active_write()),
            r is Err ==> r matches Err(AppError::Store(StoreError::Sql(_))),
    {
        match self.store.clear_active() {
            Ok(()) => Ok(()),
            Err(e) => Err(AppError::Store(e)),
        }
    }

    /// The rendering of the active list, `None` where no list is active.
    /// Reads only.
    pub fn default(&self) -> (r: Result<Option<String>, AppError>)
        ensures
            r is Ok && r->Ok_0 is Some ==> exists|l: TaskList|
                #[trigger] paints_list(l, r->Ok_0->Some_0@) && l@.loaded(),
            r is Err ==> r->Err_0 is Store,
    {
        match self.store.load_active_list() {
            Ok(Some(l)) => {
                let painter = Painter {};
                let text = painter.paint_task_list(&l);
                let r = Ok(Some(text));
                assert(paints_list(l, r->Ok_0->Some_0@) && l@.loaded());
                r
            },
            Ok(None) => Ok(None),
            Err(e) => Err(AppError::Store(e)),
        }
    }
}

} // verus!
