use vstd::prelude::*;

use crate::task::{opt_view, Task, TaskList, TaskView};
use crate::text::{decimal_value, is_decimal, parse_u64};

verus! {

#[verifier::external_type_specification]
#[verifier::external_body]
pub struct ExConnection(rusqlite::Connection);

#[verifier::external_type_specification]
#[verifier::external_body]
pub struct ExSqlError(rusqlite::Error);

/// Largest value of a signed 64-bit column.
pub const I64_MAX: u64 = 0x7fff_ffff_ffff_ffff;

/// A statement parameter.
pub enum SqlValue {
    Null,
    Integer(i64),
    Text(String),
}

pub enum StoreError {
    /// The database refused a statement; its message.
    Sql(String),
    /// A value does not fit a signed 64-bit column.
    OutOfRange,
    /// Stored rows contradict each other (an active list without its row,
    /// a malformed number, repeated task indices).
    Inconsistent,
}

/// How a row was saved, with its identity.
#[derive(PartialEq, Eq, Structural, Clone, Copy, Debug)]
pub enum Upsert {
    Inserted(u64),
    Updated(u64),
}

impl Upsert {
    pub open spec fn spec_id(self) -> u64 {
        match self {
            Upsert::Inserted(id) => id,
            Upsert::Updated(id) => id,
        }
    }

    #[verifier::when_used_as_spec(spec_id)]
    pub fn id(self) -> (r: u64)
        ensures
            r == self.spec_id(),
    {
        match self {
            Upsert::Inserted(id) => id,
            Upsert::Updated(id) => id,
        }
    }
}

/// Relies on rusqlite::Connection::open: opens, or creates, the database file.
#[verifier::external_body]
fn open_connection(path: &str) -> (r: Result<rusqlite::Connection, rusqlite::Error>) {
    rusqlite::Connection::open(path)
}

/// Relies on rusqlite::Connection::execute: runs one statement with positional
/// parameters.
#[verifier::external_body]
fn execute(conn: &rusqlite::Connection, sql: &str, params: &Vec<SqlValue>) -> (r: Result<
    usize,
    rusqlite::Error,
>) {
    let values = params.iter().map(
        |p| match p {
            SqlValue::Null => rusqlite::types::Value::Null,
            SqlValue::Integer(i) => rusqlite::types::Value::Integer(*i),
            SqlValue::Text(s) => rusqlite::types::Value::Text(s.clone()),
        },
    );
    conn.execute(sql, rusqlite::params_from_iter(values))
}

/// Relies on rusqlite::Connection::last_insert_rowid: the identity of the row
/// that the latest insert made.
#[verifier::external_body]
fn last_insert_rowid(conn: &rusqlite::Connection) -> (r: i64) {
    conn.last_insert_rowid()
}

/// Relies on rusqlite's Connection::prepare, Statement::query_map and Row::get:
/// the first `columns` columns of every row that the query yields, each read as
/// optional text; any column that cannot be read so fails the whole query.
#[verifier::external_body]
fn query_text(conn: &rusqlite::Connection, sql: &str, columns: usize) -> (r: Result<
    Vec<Vec<Option<String>>>,
    rusqlite::Error,
>)
    ensures
        r is Ok ==> forall|i: int| 0 <= i < r->Ok_0@.len() ==> (#[trigger] r->Ok_0@[i])@.len()
            == columns,
{
    let mut stmt = conn.prepare(sql)?;
    let rows = stmt.query_map([], |row| (0..columns).map(|i| row.get(i)).collect())?;
    let r: Result<Vec<Vec<Option<String>>>, rusqlite::Error> = rows.collect();
    r
}

/// Relies on the `Display` impl of rusqlite::Error: its message.
#[verifier::external_body]
fn error_text(e: &rusqlite::Error) -> (r: String) {
    e.to_string()
}

/// The number that an optional text field writes, if it writes one.
pub open spec fn number(f: Option<Seq<char>>) -> Option<u64> {
    match f {
        Some(s) => if is_decimal(s) && decimal_value(s) <= u64::MAX {
            Some(decimal_value(s) as u64)
        } else {
            None
        },
        None => None,
    }
}

pub open spec fn row_view(row: Seq<Option<String>>) -> Seq<Option<Seq<char>>> {
    row.map_values(|f: Option<String>| opt_view(f))
}

/// The task that a row of `id, title, description, create_timestamp,
/// done_timestamp, done, idx` describes; a null done time reads as 0 and a
/// null flag as not done.
pub open spec fn task_of_row(row: Seq<Option<Seq<char>>>, list_id: u64) -> Option<TaskView> {
    if row.len() == 7 && number(row[0]) is Some && row[1] is Some && number(row[3]) is Some
        && number(row[6]) is Some && (row[4] is Some ==> number(row[4]) is Some) && (row[5] is Some
        ==> number(row[5]) is Some) {
        Some(
            TaskView {
                id: number(row[0]),
                title: row[1]->Some_0,
                description: row[2],
                create_timestamp: number(row[3])->Some_0,
                done_timestamp: if row[4] is Some {
                    number(row[4])->Some_0
                } else {
                    0
                },
                done: row[5] is Some && number(row[5])->Some_0 != 0,
                index: number(row[6])->Some_0,
                task_list_id: list_id,
            },
        )
    } else {
        None
    }
}

fn read_number(f: &Option<String>) -> (r: Option<u64>)
    ensures
        r == number(opt_view(*f)),
{
    match f {
        Some(s) => parse_u64(s.as_str()),
        None => None,
    }
}

fn read_text(f: &Option<String>) -> (r: Option<String>)
    ensures
        opt_view(r) == opt_view(*f),
{
    match f {
        Some(s) => Some(s.clone()),
        None => None,
    }
}

/// Builds a task of the list `list_id` from a row of the task query.
pub fn decode_task(row: &Vec<Option<String>>, list_id: u64) -> (r: Result<Task, StoreError>)
    ensures
        r is Ok <==> task_of_row(row_view(row@), list_id) is Some,
        r is Ok ==> Some(r->Ok_0@) == task_of_row(row_view(row@), list_id),
        r is Err ==> r == Err::<Task, StoreError>(StoreError::Inconsistent),
{
    let ghost v = row_view(row@);
    if row.len() != 7 {
        return Err(StoreError::Inconsistent);
    }
    assert(v[0] == opt_view(row@[0]) && v[1] == opt_view(row@[1]) && v[2] == opt_view(row@[2])
        && v[3] == opt_view(row@[3]) && v[4] == opt_view(row@[4]) && v[5] == opt_view(row@[5])
        && v[6] == opt_view(row@[6]));
    let id = match read_number(&row[0]) {
        Some(n) => n,
        None => return Err(StoreError::Inconsistent),
    };
    let title = match &row[1] {
        Some(s) => s.clone(),
        None => return Err(StoreError::Inconsistent),
    };
    let create_timestamp = match read_number(&row[3]) {
        Some(n) => n,
        None => return Err(StoreError::Inconsistent),
    };
    let index = match read_number(&row[6]) {
        Some(n) => n,
        None => return Err(StoreError::Inconsistent),
    };
    let done_timestamp = match &row[4] {
        None => 0,
        Some(_) => match read_number(&row[4]) {
            Some(n) => n,
            None => return Err(StoreError::Inconsistent),
        },
    };
    let done = match &row[5] {
        None => false,
        Some(_) => match read_number(&row[5]) {
            Some(n) => n != 0,
            None => return Err(StoreError::Inconsistent),
        },
    };
    Ok(
        Task {
            title,
            description: read_text(&row[2]),
            create_timestamp,
            done_timestamp,
            done,
            index,
            id: Some(id),
            task_list_id: list_id,
        },
    )
}

/// The task that row `i` of the task query describes, for list `id`.
pub open spec fn row_task(rows: Seq<Vec<Option<String>>>, id: u64, i: int) -> Option<TaskView> {
    task_of_row(row_view(rows[i]@), id)
}

/// Every row describes a task, and the indices start at 1 and strictly
/// increase.
pub open spec fn rows_decode(rows: Seq<Vec<Option<String>>>, id: u64) -> bool {
    &&& forall|i: int|
        0 <= i < rows.len() ==> (#[trigger] row_task(rows, id, i)) is Some && row_task(
            rows,
            id,
            i,
        )->Some_0.index >= 1
    &&& forall|i: int, j: int|
        0 <= i < j < rows.len() ==> (#[trigger] row_task(rows, id, i))->Some_0.index < (
        #[trigger] row_task(rows, id, j))->Some_0.index
}

/// Builds the active list from the row of `active` joined with its list
/// (`task_list_id, create_timestamp, name`) and the rows of its tasks, by index.
/// A missing slot or a null pointer gives `None`.
pub fn decode_list(head: &Vec<Vec<Option<String>>>, rows: &Vec<Vec<Option<String>>>) -> (r:
    Result<Option<TaskList>, StoreError>)
    ensures
        head@.len() == 0 ==> r matches Ok(None),
        head@.len() > 0 && head@[0]@.len() > 0 && head@[0]@[0] is None ==> r matches Ok(None),
        (r matches Ok(Some(l)) ==> {
            &&& head@.len() > 0 && head@[0]@.len() == 3
            &&& l@.wf()
            &&& l@.id is Some
            &&& l@.id == number(opt_view(head@[0]@[0]))
            &&& Some(l@.create_timestamp) == number(opt_view(head@[0]@[1]))
            &&& l@.name == opt_view(head@[0]@[2])
            &&& l@.tasks.len() == rows@.len()
            &&& forall|i: int| 0 <= i < l@.tasks.len() ==> (#[trigger] l@.tasks[i]).id is Some
            &&& forall|i: int|
                0 <= i < rows@.len() ==> Some(#[trigger] l@.tasks[i]) == task_of_row(
                    row_view(rows@[i]@),
                    l@.id->Some_0,
                )
        }),
        r is Err ==> r == Err::<Option<TaskList>, StoreError>(StoreError::Inconsistent),
        head@.len() > 0 && head@[0]@.len() == 3 && head@[0]@[0] is Some ==> (r is Ok <==> (number(
            opt_view(head@[0]@[0]),
        ) is Some && number(opt_view(head@[0]@[1])) is Some && rows_decode(
            rows@,
            number(opt_view(head@[0]@[0]))->Some_0,
        ))),
        head@.len() > 0 && head@[0]@.len() == 3 && head@[0]@[0] is Some ==> !(r matches Ok(None)),
{
    if head.len() == 0 {
        return Ok(None);
    }
    let first = &head[0];
    if first.len() > 0 && first[0].is_none() {
        return Ok(None);
    }
    if first.len() != 3 {
        return Err(StoreError::Inconsistent);
    }
    let id = match read_number(&first[0]) {
        Some(n) => n,
        None => return Err(StoreError::Inconsistent),
    };
    let create_timestamp = match read_number(&first[1]) {
        Some(n) => n,
        None => return Err(StoreError::Inconsistent),
    };
    let mut tasks: Vec<Task> = Vec::new();
    let mut i: usize = 0;
    while i < rows.len()
        invariant
            0 <= i <= rows@.len(),
            tasks@.len() == i,
            head@.len() > 0,
            first == &head@[0],
            first@.len() == 3,
            Some(id) == number(opt_view(first@[0])),
            Some(create_timestamp) == number(opt_view(first@[1])),
            forall|k: int|
                0 <= k < i ==> Some(#[trigger] tasks@[k]@) == task_of_row(
                    row_view(rows@[k]@),
                    id,
                ),
            forall|k: int| 0 <= k < i ==> (#[trigger] tasks@[k]).index >= 1,
            forall|k: int, j: int| 0 <= k < j < i ==> tasks@[k].index < tasks@[j].index,
        decreases rows@.len() - i,
    {
        let t = match decode_task(&rows[i], id) {
            Ok(t) => t,
            Err(e) => {
                assert(row_task(rows@, id, i as int) is None);
                return Err(e);
            },
        };
        assert(row_task(rows@, id, i as int) == Some(t@));
        if t.index < 1 {
            return Err(StoreError::Inconsistent);
        }
        if i > 0 && t.index <= tasks[i - 1].index {
            assert(row_task(rows@, id, i - 1) == Some(tasks@[i - 1]@));
            return Err(StoreError::Inconsistent);
        }
        tasks.push(t);
        i = i + 1;
    }
    let l = TaskList { tasks, create_timestamp, name: read_text(&first[2]), id: Some(id) };
    assert forall|k: int| 0 <= k < l@.tasks.len() implies (#[trigger] l@.tasks[k]).id is Some
        && Some(l@.tasks[k]) == task_of_row(row_view(rows@[k]@), id) by {
        assert(l@.tasks[k] == l.tasks@[k]@);
    }
    assert(l@.wf());
    assert forall|k: int| 0 <= k < rows@.len() implies (#[trigger] row_task(rows@, id, k)) is Some
        && row_task(rows@, id, k)->Some_0.index >= 1 by {
        assert(row_task(rows@, id, k) == Some(tasks@[k]@));
    }
    assert forall|a: int, b: int| 0 <= a < b < rows@.len() implies (#[trigger] row_task(
        rows@,
        id,
        a,
    ))->Some_0.index < (#[trigger] row_task(rows@, id, b))->Some_0.index by {
        assert(row_task(rows@, id, a) == Some(tasks@[a]@));
        assert(row_task(rows@, id, b) == Some(tasks@[b]@));
    }
    Ok(Some(l))
}

/// The statements that change the database.
#[derive(PartialEq, Eq, Structural, Clone, Copy, Debug)]
pub enum Sql {
    CreateTaskLists,
    CreateTasks,
    CreateActive,
    InitActive,
    InsertTask,
    UpdateTask,
    InsertTaskList,
    UpdateTaskList,
    DeleteTask,
    SetActive,
    ClearActive,
}

pub const CREATE_TASK_LISTS: &'static str = "CREATE TABLE IF NOT EXISTS task_lists (
    id INTEGER PRIMARY KEY,
    create_timestamp INTEGER NOT NULL,
    name TEXT
)";

pub const CREATE_TASKS: &'static str = "CREATE TABLE IF NOT EXISTS tasks (
    id INTEGER PRIMARY KEY,
    task_list_id INTEGER NOT NULL,
    title TEXT NOT NULL,
    idx INTEGER NOT NULL,
    description TEXT,
    create_timestamp INTEGER NOT NULL,
    done_timestamp INTEGER,
    done BOOL,
    FOREIGN KEY (task_list_id) REFERENCES task_lists (id)
)";

pub const CREATE_ACTIVE: &'static str = "CREATE TABLE IF NOT EXISTS active (
    id INTEGER PRIMARY KEY,
    task_list_id INTEGER,
    FOREIGN KEY (task_list_id) REFERENCES task_lists (id)
)";

pub const INIT_ACTIVE: &'static str = "INSERT OR IGNORE INTO active (id, task_list_id) VALUES (1, NULL)";

pub const INSERT_TASK: &'static str = "INSERT INTO tasks (task_list_id, title, description,
    create_timestamp, done_timestamp, done, idx) VALUES (?1, ?2, ?3, ?4, ?5, ?6, ?7)";

pub const UPDATE_TASK: &'static str = "UPDATE tasks SET title = ?1, description = ?2,
    create_timestamp = ?3, done_timestamp = ?4, done = ?5, idx = ?6 WHERE id = ?7";

pub const INSERT_TASK_LIST: &'static str = "INSERT INTO task_lists (name, create_timestamp) VALUES (?1, ?2)";

pub const UPDATE_TASK_LIST: &'static str = "UPDATE task_lists SET name = ?1, create_timestamp = ?2 WHERE id = ?3";

pub const DELETE_TASK: &'static str = "DELETE FROM tasks WHERE id = ?1";

pub const SET_ACTIVE: &'static str = "UPDATE active SET task_list_id = ?1 WHERE id = 1";

pub const CLEAR_ACTIVE: &'static str = "UPDATE active SET task_list_id = NULL WHERE id = 1";

pub const SELECT_ACTIVE_LIST: &'static str = "SELECT CAST(a.task_list_id AS TEXT),
    CAST(l.create_timestamp AS TEXT), l.name
    FROM active a LEFT JOIN task_lists l ON l.id = a.task_list_id WHERE a.id = 1";

pub const SELECT_ACTIVE_TASKS: &'static str = "SELECT CAST(t.id AS TEXT), t.title, t.description,
    CAST(t.create_timestamp AS TEXT), CAST(t.done_timestamp AS TEXT), CAST(t.done AS TEXT),
    CAST(t.idx AS TEXT)
    FROM tasks t JOIN active a ON t.task_list_id = a.task_list_id
    WHERE a.id = 1 ORDER BY t.idx";

impl Sql {
    /// The statement's text.
    pub fn text(self) -> &'static str {
        match self {
            Sql::CreateTaskLists => CREATE_TASK_LISTS,
            Sql::CreateTasks => CREATE_TASKS,
            Sql::CreateActive => CREATE_ACTIVE,
            Sql::InitActive => INIT_ACTIVE,
            Sql::InsertTask => INSERT_TASK,
            Sql::UpdateTask => UPDATE_TASK,
            Sql::InsertTaskList => INSERT_TASK_LIST,
            Sql::UpdateTaskList => UPDATE_TASK_LIST,
            Sql::DeleteTask => DELETE_TASK,
            Sql::SetActive => SET_ACTIVE,
            Sql::ClearActive => CLEAR_ACTIVE,
        }
    }
}

/// A parameter as a value.
pub enum Cell {
    Null,
    Integer(int),
    Text(Seq<char>),
}

impl View for SqlValue {
    type V = Cell;

    open spec fn view(&self) -> Cell {
        match self {
            SqlValue::Null => Cell::Null,
            SqlValue::Integer(i) => Cell::Integer(*i as int),
            SqlValue::Text(s) => Cell::Text(s@),
        }
    }
}

/// One statement handed to the database, with its parameters.
pub struct Write {
    pub kind: Sql,
    pub params: Seq<Cell>,
}

pub open spec fn write(kind: Sql, params: Seq<Cell>) -> Write {
    Write { kind, params }
}

pub open spec fn text_cell(s: Option<Seq<char>>) -> Cell {
    match s {
        Some(t) => Cell::Text(t),
        None => Cell::Null,
    }
}

pub open spec fn flag_cell(b: bool) -> Cell {
    Cell::Integer(if b { 1 } else { 0 })
}

/// The statements that set up the store, in order.
pub open spec fn init_writes() -> Seq<Write> {
    seq![
        write(Sql::CreateTaskLists, seq![]),
        write(Sql::CreateTasks, seq![]),
        write(Sql::CreateActive, seq![]),
        write(Sql::InitActive, seq![]),
    ]
}

/// The statement that saves a task: an update by identity, or an insert.
pub open spec fn task_write(t: TaskView) -> Write {
    match t.id {
        Some(id) => write(
            Sql::UpdateTask,
            seq![
                Cell::Text(t.title),
                text_cell(t.description),
                Cell::Integer(t.create_timestamp as int),
                Cell::Integer(t.done_timestamp as int),
                flag_cell(t.done),
                Cell::Integer(t.index as int),
                Cell::Integer(id as int),
            ],
        ),
        None => write(
            Sql::InsertTask,
            seq![
                Cell::Integer(t.task_list_id as int),
                Cell::Text(t.title),
                text_cell(t.description),
                Cell::Integer(t.create_timestamp as int),
                Cell::Integer(t.done_timestamp as int),
                flag_cell(t.done),
                Cell::Integer(t.index as int),
            ],
        ),
    }
}

/// The statement that saves a task list row.
pub open spec fn list_write(id: Option<u64>, name: Option<Seq<char>>, create_timestamp: u64) -> Write {
    match id {
        Some(k) => write(
            Sql::UpdateTaskList,
            seq![text_cell(name), Cell::Integer(create_timestamp as int), Cell::Integer(k as int)],
        ),
        None => write(Sql::InsertTaskList, seq![text_cell(name), Cell::Integer(create_timestamp as int)]),
    }
}

pub open spec fn delete_write(id: u64) -> Write {
    write(Sql::DeleteTask, seq![Cell::Integer(id as int)])
}

pub open spec fn set_active_write(id: u64) -> Write {
    write(Sql::SetActive, seq![Cell::Integer(id as int)])
}

pub open spec fn clear_active_write() -> Write {
    write(Sql::ClearActive, seq![])
}

/// The task store: one database with the tables `tasks`, `task_lists` and
/// the one-row table `active`. `writes` records every statement that changed
/// or may have changed it, in order; reads are not recorded.
pub struct Store {
    conn: rusqlite::Connection,
    writes: Ghost<Seq<Write>>,
}

impl View for Store {
    type V = Seq<Write>;

    /// The statements sent so far.
    closed spec fn view(&self) -> Seq<Write> {
        self.writes@
    }
}

fn to_column(n: u64) -> (r: Result<SqlValue, StoreError>)
    ensures
        n <= I64_MAX ==> r is Ok && r->Ok_0@ == Cell::Integer(n as int),
        n > I64_MAX ==> r == Err::<SqlValue, StoreError>(StoreError::OutOfRange),
{
    if n > I64_MAX {
        Err(StoreError::OutOfRange)
    } else {
        Ok(SqlValue::Integer(n as i64))
    }
}

fn text_column(s: &Option<String>) -> (r: SqlValue)
    ensures
        r@ == text_cell(opt_view(*s)),
{
    match s {
        Some(t) => SqlValue::Text(t.clone()),
        None => SqlValue::Null,
    }
}

pub open spec fn cells(params: Seq<SqlValue>) -> Seq<Cell> {
    params.map_values(|v: SqlValue| v@)
}

impl Store {
    /// Opens the store at `path` and sets up its tables.
    pub fn open(path: &str) -> (r: Result<Store, StoreError>)
        ensures
            r is Ok ==> r->Ok_0@ == init_writes(),
            r is Err ==> r->Err_0 is Sql,
    {
        let conn = match open_connection(path) {
            Ok(c) => c,
            Err(e) => return Err(StoreError::Sql(error_text(&e))),
        };
        let mut store = Store { conn, writes: Ghost(Seq::empty()) };
        match store.initialize() {
            Ok(()) => {
                assert(store@ =~= init_writes());
                Ok(store)
            },
            Err(e) => Err(e),
        }
    }

    /// Hands one statement to the database and records it.
    fn run(&mut self, kind: Sql, params: Vec<SqlValue>) -> (r: Result<(), StoreError>)
        ensures
            final(self)@ == old(self)@.push(write(kind, cells(params@))),
            r is Err ==> r->Err_0 is Sql,
    {
        self.writes = Ghost(self.writes@.push(write(kind, cells(params@))));
        match execute(&self.conn, kind.text(), &params) {
            Ok(_) => Ok(()),
            Err(e) => Err(StoreError::Sql(error_text(&e))),
        }
    }

    fn query(&self, sql: &str, columns: usize) -> (r: Result<Vec<Vec<Option<String>>>, StoreError>)
        ensures
            r is Ok ==> forall|i: int| 0 <= i < r->Ok_0@.len() ==> (#[trigger] r->Ok_0@[i])@.len()
                == columns,
            r is Err ==> r->Err_0 is Sql,
    {
        match query_text(&self.conn, sql, columns) {
            Ok(rows) => Ok(rows),
            Err(e) => Err(StoreError::Sql(error_text(&e))),
        }
    }

    /// The identity of the row that the latest insert made.
    fn inserted_id(&self) -> (r: Result<u64, StoreError>)
        ensures
            r is Ok ==> r->Ok_0 <= I64_MAX,
            r is Err ==> r == Err::<u64, StoreError>(StoreError::Inconsistent),
    {
        let rowid = last_insert_rowid(&self.conn);
        if rowid < 0 {
            Err(StoreError::Inconsistent)
        } else {
            Ok(rowid as u64)
        }
    }

    /// Creates the three tables where they are missing, and the `active` slot,
    /// pointing at no list, where it is missing; stops at the first failure.
    pub fn initialize(&mut self) -> (r: Result<(), StoreError>)
        ensures
            r is Ok ==> final(self)@ == old(self)@ + init_writes(),
            r is Err ==> r->Err_0 is Sql,
    {
        let r = self.run(Sql::CreateTaskLists, Vec::new());
        if r.is_err() {
            return r;
        }
        let r = self.run(Sql::CreateTasks, Vec::new());
        if r.is_err() {
            return r;
        }
        let r = self.run(Sql::CreateActive, Vec::new());
        if r.is_err() {
            return r;
        }
        let r = self.run(Sql::InitActive, Vec::new());
        assert(cells(Seq::<SqlValue>::empty()) =~= seq![]);
        assert(self@ =~= old(self)@ + init_writes());
        r
    }

    /// Inserts the task's row when it has no identity, else updates the row
    /// with its identity. A value out of range sends nothing.
    pub fn upsert_task(&mut self, t: &Task) -> (r: Result<Upsert, StoreError>)
        ensures
            r == Err::<Upsert, StoreError>(StoreError::OutOfRange) <==> !t@.fits(),
            !t@.fits() ==> final(self)@ == old(self)@,
            t@.fits() ==> final(self)@ == old(self)@.push(task_write(t@)),
            r is Ok && t.id is Some ==> r->Ok_0 == Upsert::Updated(t.id->Some_0),
            r is Ok && t.id is None ==> r->Ok_0 is Inserted,
    {
        let create = match to_column(t.create_timestamp) {
            Ok(v) => v,
            Err(e) => return Err(e),
        };
        let done_at = match to_column(t.done_timestamp) {
            Ok(v) => v,
            Err(e) => return Err(e),
        };
        let index = match to_column(t.index) {
            Ok(v) => v,
            Err(e) => return Err(e),
        };
        let owner = match to_column(t.task_list_id) {
            Ok(v) => v,
            Err(e) => return Err(e),
        };
        let done = SqlValue::Integer(if t.done { 1 } else { 0 });
        match t.id {
            Some(id) => {
                let key = match to_column(id) {
                    Ok(v) => v,
                    Err(e) => return Err(e),
                };
                let params = vec![
                    SqlValue::Text(t.title.clone()),
                    text_column(&t.description),
                    create,
                    done_at,
                    done,
                    index,
                    key,
                ];
                assert(cells(params@) =~= task_write(t@).params);
                match self.run(Sql::UpdateTask, params) {
                    Ok(()) => Ok(Upsert::Updated(id)),
                    Err(e) => Err(e),
                }
            },
            None => {
                let params = vec![
                    owner,
                    SqlValue::Text(t.title.clone()),
                    text_column(&t.description),
                    create,
                    done_at,
                    done,
                    index,
                ];
                assert(cells(params@) =~= task_write(t@).params);
                match self.run(Sql::InsertTask, params) {
                    Ok(()) => match self.inserted_id() {
                        Ok(id) => Ok(Upsert::Inserted(id)),
                        Err(e) => Err(e),
                    },
                    Err(e) => Err(e),
                }
            },
        }
    }

    /// Inserts the list's row when it has no identity, else updates the row
    /// with its identity. A value out of range sends nothing.
    pub fn upsert_task_list(&mut self, id: Option<u64>, name: &Option<String>, create_timestamp: u64) -> (r:
        Result<Upsert, StoreError>)
        ensures
            r == Err::<Upsert, StoreError>(StoreError::OutOfRange) <==> (create_timestamp > I64_MAX
                || (id is Some && id->Some_0 > I64_MAX)),
            r == Err::<Upsert, StoreError>(StoreError::OutOfRange) ==> final(self)@ == old(self)@,
            r != Err::<Upsert, StoreError>(StoreError::OutOfRange) ==> final(self)@ == old(self)@.push(list_write(id, opt_view(*name), create_timestamp)),
            r is Ok ==> r->Ok_0.id() <= I64_MAX,
            r is Ok && id is Some ==> r->Ok_0 == Upsert::Updated(id->Some_0),
            r is Ok && id is None ==> r->Ok_0 is Inserted,
    {
        let create = match to_column(create_timestamp) {
            Ok(v) => v,
            Err(e) => return Err(e),
        };
        match id {
            Some(k) => {
                let key = match to_column(k) {
                    Ok(v) => v,
                    Err(e) => return Err(e),
                };
                let params = vec![text_column(name), create, key];
                assert(cells(params@) =~= list_write(id, opt_view(*name), create_timestamp).params);
                match self.run(Sql::UpdateTaskList, params) {
                    Ok(()) => Ok(Upsert::Updated(k)),
                    Err(e) => Err(e),
                }
            },
            None => {
                let params = vec![text_column(name), create];
                assert(cells(params@) =~= list_write(id, opt_view(*name), create_timestamp).params);
                match self.run(Sql::InsertTaskList, params) {
                    Ok(()) => match self.inserted_id() {
                        Ok(k) => Ok(Upsert::Inserted(k)),
                        Err(e) => Err(e),
                    },
                    Err(e) => Err(e),
                }
            },
        }
    }

    /// Deletes the task row with identity `id`.
    pub fn delete_task(&mut self, id: u64) -> (r: Result<(), StoreError>)
        ensures
            r == Err::<(), StoreError>(StoreError::OutOfRange) <==> id > I64_MAX,
            id > I64_MAX ==> final(self)@ == old(self)@,
            id <= I64_MAX ==> final(self)@ == old(self)@.push(delete_write(id)),
    {
        let key = match to_column(id) {
            Ok(v) => v,
            Err(e) => return Err(e),
        };
        let params = vec![key];
        assert(cells(params@) =~= delete_write(id).params);
        self.run(Sql::DeleteTask, params)
    }

    /// Points the active slot at the list `list_id`.
    pub fn set_active(&mut self, list_id: u64) -> (r: Result<(), StoreError>)
        ensures
            r == Err::<(), StoreError>(StoreError::OutOfRange) <==> list_id > I64_MAX,
            list_id > I64_MAX ==> final(self)@ == old(self)@,
            list_id <= I64_MAX ==> final(self)@ == old(self)@.push(
                set_active_write(list_id),
            ),
    {
        let key = match to_column(list_id) {
            Ok(v) => v,
            Err(e) => return Err(e),
        };
        let params = vec![key];
        assert(cells(params@) =~= set_active_write(list_id).params);
        self.run(Sql::SetActive, params)
    }

    /// Points the active slot at no list.
    pub fn clear_active(&mut self) -> (r: Result<(), StoreError>)
        ensures
            final(self)@ == old(self)@.push(clear_active_write()),
            r is Err ==> r->Err_0 is Sql,
    {
        let params: Vec<SqlValue> = Vec::new();
        assert(cells(params@) =~= clear_active_write().params);
        self.run(Sql::ClearActive, params)
    }

    /// The active list with its tasks by index, `None` where no list is
    /// active. Reads only.
    pub fn load_active_list(&self) -> (r: Result<Option<TaskList>, StoreError>)
        ensures
            r is Ok && r->Ok_0 is Some ==> r->Ok_0->Some_0@.loaded(),
    {
        let head = match self.query(SELECT_ACTIVE_LIST, 3) {
            Ok(rows) => rows,
            Err(e) => return Err(e),
        };
        let rows = match self.query(SELECT_ACTIVE_TASKS, 7) {
            Ok(rows) => rows,
            Err(e) => return Err(e),
        };
        decode_list(&head, &rows)
    }
}

} // verus!
