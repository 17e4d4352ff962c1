use rodo::app::{
    append_task, AddArguments, AppError, Application, CommitArguments, CreateArguments,
    DoneArguments, RemoveArguments, UndoneArguments,
};
use rodo::painter::{list_text_of, task_line_of, Painter};
use rodo::store::{decode_list, decode_task, Store, StoreError, Upsert};
use rodo::task::{Task, TaskError, TaskList};
use rodo::text::parse_u64;
use rodo::utils::timestamp;

fn memory_app() -> Application {
    match Application::new(":memory:") {
        Ok(app) => app,
        Err(_) => panic!("cannot open an in-memory store"),
    }
}

fn task(title: &str, description: Option<&str>, index: u64) -> Task {
    Task {
        title: title.to_string(),
        description: description.map(|d| d.to_string()),
        create_timestamp: 5,
        done_timestamp: 0,
        done: false,
        index,
        id: None,
        task_list_id: 1,
    }
}

fn list_with(indices: &[u64]) -> TaskList {
    let mut l = TaskList { tasks: Vec::new(), create_timestamp: 1, name: None, id: Some(1) };
    for i in indices {
        l.add_task(task("t", None, *i));
    }
    l
}

fn render(app: &Application) -> Option<String> {
    match app.default() {
        Ok(r) => r,
        Err(_) => panic!("store error"),
    }
}

fn groceries(app: &mut Application) {
    assert!(app.create(CreateArguments { name: Some("Groceries".to_string()) }).is_ok());
    assert!(app.add(AddArguments { title: "Milk".to_string(), description: None }).is_ok());
    assert!(app
        .add(AddArguments {
            title: "Eggs".to_string(),
            description: Some("a dozen".to_string()),
        })
        .is_ok());
    assert!(app.done(DoneArguments { index: 1 }).is_ok());
}

#[test]
fn create_named_list_renders_header_and_no_tasks() {
    let mut app = memory_app();
    assert!(app.create(CreateArguments { name: Some("Groceries".to_string()) }).is_ok());
    assert_eq!(render(&app), Some("Groceries\n=========\n".to_string()));
}

#[test]
fn create_unnamed_list_renders_nothing() {
    let mut app = memory_app();
    assert!(app.create(CreateArguments { name: None }).is_ok());
    assert_eq!(render(&app), Some(String::new()));
}

#[test]
fn groceries_scenario_renders_done_and_open_tasks() {
    let mut app = memory_app();
    groceries(&mut app);
    assert_eq!(
        render(&app),
        Some("Groceries\n=========\n1. Milk: \u{2713}\n2. Eggs: a dozen \u{25cf}".to_string())
    );
}

#[test]
fn remove_keeps_assigned_index() {
    let mut app = memory_app();
    groceries(&mut app);
    assert!(app.remove(RemoveArguments { index: 1 }).is_ok());
    assert_eq!(render(&app), Some("Groceries\n=========\n2. Eggs: a dozen \u{25cf}".to_string()));
}

#[test]
fn commit_clears_active_list() {
    let mut app = memory_app();
    groceries(&mut app);
    assert!(app.remove(RemoveArguments { index: 1 }).is_ok());
    assert!(app.commit(CommitArguments {}).is_ok());
    assert_eq!(render(&app), None);
    assert!(matches!(
        app.add(AddArguments { title: "x".to_string(), description: None }),
        Err(AppError::NoActiveList)
    ));
}

#[test]
fn fresh_store_has_no_active_list() {
    let mut app = memory_app();
    assert_eq!(render(&app), None);
    assert!(matches!(app.done(DoneArguments { index: 1 }), Err(AppError::NoActiveList)));
}

#[test]
fn remove_out_of_range_changes_nothing() {
    let mut app = memory_app();
    groceries(&mut app);
    let before = render(&app);
    assert!(matches!(app.remove(RemoveArguments { index: 0 }), Err(AppError::IndexOutOfRange)));
    assert!(matches!(app.remove(RemoveArguments { index: 3 }), Err(AppError::IndexOutOfRange)));
    assert_eq!(render(&app), before);
}

#[test]
fn undone_command_clears_mark() {
    let mut app = memory_app();
    groceries(&mut app);
    assert!(app.undone(UndoneArguments { index: 1 }).is_ok());
    assert!(matches!(app.undone(UndoneArguments { index: 9 }), Err(AppError::IndexOutOfRange)));
    assert_eq!(
        render(&app),
        Some("Groceries\n=========\n1. Milk: \u{25cf}\n2. Eggs: a dozen \u{25cf}".to_string())
    );
}

#[test]
fn index_after_removal_of_middle_task_is_not_reused() {
    let mut app = memory_app();
    groceries(&mut app);
    assert!(app.add(AddArguments { title: "Tea".to_string(), description: None }).is_ok());
    assert!(app.remove(RemoveArguments { index: 2 }).is_ok());
    assert!(app.add(AddArguments { title: "Jam".to_string(), description: None }).is_ok());
    assert_eq!(
        render(&app),
        Some("Groceries\n=========\n1. Milk: \u{2713}\n3. Tea: \u{25cf}\n4. Jam: \u{25cf}".to_string())
    );
}

#[test]
fn next_index_is_one_on_empty_list() {
    assert_eq!(list_with(&[]).next_index(), Some(1));
}

#[test]
fn next_index_follows_last_task() {
    assert_eq!(list_with(&[1, 2, 7]).next_index(), Some(8));
    assert_eq!(list_with(&[u64::MAX]).next_index(), None);
}

#[test]
fn append_task_takes_next_index_and_owner() {
    let mut l = list_with(&[1, 4]);
    assert!(append_task(&mut l, "new".to_string(), Some("d".to_string()), 99).is_ok());
    let t = &l.tasks[2];
    assert_eq!(t.index, 5);
    assert_eq!(t.task_list_id, 1);
    assert_eq!(t.create_timestamp, 99);
    assert_eq!(t.id, None);
    assert!(!t.done);
    let mut full = list_with(&[u64::MAX]);
    assert!(matches!(
        append_task(&mut full, "x".to_string(), None, 1),
        Err(AppError::IndexExhausted)
    ));
    assert_eq!(full.tasks.len(), 1);
}

#[test]
fn done_then_undone_restores_flags() {
    let mut l = list_with(&[1, 2]);
    assert!(l.done_task_at(2, 123456).is_ok());
    assert!(l.tasks[1].done);
    assert_eq!(l.tasks[1].done_timestamp, 123456);
    assert!(l.undone_task(2).is_ok());
    assert!(!l.tasks[1].done);
    assert_eq!(l.tasks[1].done_timestamp, 0);
    assert!(!l.tasks[0].done);
}

#[test]
fn done_task_uses_current_time() {
    let mut l = list_with(&[1]);
    assert!(l.done_task(1).is_ok());
    assert!(l.tasks[0].done);
    assert!(l.tasks[0].done_timestamp > 0);
    assert!(matches!(l.done_task(0), Err(TaskError::IndexOutOfRange)));
    assert!(matches!(l.done_task(2), Err(TaskError::IndexOutOfRange)));
}

#[test]
fn take_task_removes_by_position() {
    let mut l = list_with(&[1, 2, 3]);
    match l.take_task(2) {
        Ok(t) => assert_eq!(t.index, 2),
        Err(_) => panic!("in range"),
    }
    assert_eq!(l.tasks.len(), 2);
    assert_eq!(l.tasks[1].index, 3);
    assert!(matches!(l.take_task(3), Err(TaskError::IndexOutOfRange)));
    assert_eq!(l.tasks.len(), 2);
}

#[test]
fn commit_twice_inserts_once() {
    let mut store = match Store::open(":memory:") {
        Ok(s) => s,
        Err(_) => panic!("cannot open store"),
    };
    let mut l = TaskList { tasks: Vec::new(), create_timestamp: 7, name: Some("a".to_string()), id: None };
    let first = l.commit(&mut store);
    let id = match first {
        Ok(Upsert::Inserted(id)) => id,
        _ => panic!("first commit inserts"),
    };
    assert_eq!(l.id, Some(id));
    l.add_task(Task { task_list_id: id, ..task("x", None, 1) });
    assert!(matches!(l.commit(&mut store), Ok(Upsert::Updated(k)) if k == id));
    let task_id = l.tasks[0].id;
    assert!(task_id.is_some());
    assert!(matches!(l.commit(&mut store), Ok(Upsert::Updated(k)) if k == id));
    assert_eq!(l.tasks[0].id, task_id);
    assert!(l.set_active(&mut store).is_ok());
    match store.load_active_list() {
        Ok(Some(loaded)) => {
            assert_eq!(loaded.id, Some(id));
            assert_eq!(loaded.tasks.len(), 1);
            assert_eq!(loaded.tasks[0].id, task_id);
            assert_eq!(loaded.name, Some("a".to_string()));
            assert_eq!(loaded.create_timestamp, 7);
        }
        _ => panic!("list is active"),
    }
}

#[test]
fn commit_rejects_values_beyond_signed_range() {
    let mut store = match Store::open(":memory:") {
        Ok(s) => s,
        Err(_) => panic!("cannot open store"),
    };
    let mut l = TaskList { tasks: Vec::new(), create_timestamp: u64::MAX, name: None, id: None };
    assert!(matches!(l.commit(&mut store), Err(StoreError::OutOfRange)));
    assert_eq!(l.id, None);
    assert!(matches!(store.delete_task(u64::MAX), Err(StoreError::OutOfRange)));
    assert!(matches!(store.set_active(u64::MAX), Err(StoreError::OutOfRange)));
}

#[test]
fn commit_sets_task_owner() {
    let mut store = match Store::open(":memory:") {
        Ok(s) => s,
        Err(_) => panic!("cannot open store"),
    };
    let mut l = TaskList { tasks: Vec::new(), create_timestamp: 3, name: None, id: None };
    l.add_task(Task { task_list_id: 0, ..task("x", None, 1) });
    let id = match l.commit(&mut store) {
        Ok(u) => u.id(),
        Err(_) => panic!("commit"),
    };
    assert_eq!(l.tasks[0].task_list_id, id);
    assert!(l.tasks[0].id.is_some());
}

#[test]
fn parse_u64_reads_decimal_numbers() {
    assert_eq!(parse_u64("0"), Some(0));
    assert_eq!(parse_u64("1234"), Some(1234));
    assert_eq!(parse_u64("007"), Some(7));
    assert_eq!(parse_u64("18446744073709551615"), Some(u64::MAX));
    assert_eq!(parse_u64("18446744073709551616"), None);
    assert_eq!(parse_u64(""), None);
    assert_eq!(parse_u64("-1"), None);
    assert_eq!(parse_u64("12a"), None);
}

fn row(fields: &[Option<&str>]) -> Vec<Option<String>> {
    fields.iter().map(|f| f.map(|s| s.to_string())).collect()
}

#[test]
fn decode_task_reads_a_row() {
    let r = row(&[Some("4"), Some("Milk"), None, Some("100"), None, Some("1"), Some("2")]);
    match decode_task(&r, 9) {
        Ok(t) => {
            assert_eq!(t.id, Some(4));
            assert_eq!(t.title, "Milk");
            assert_eq!(t.description, None);
            assert_eq!(t.create_timestamp, 100);
            assert_eq!(t.done_timestamp, 0);
            assert!(t.done);
            assert_eq!(t.index, 2);
            assert_eq!(t.task_list_id, 9);
        }
        Err(_) => panic!("row is valid"),
    }
    let bad = row(&[Some("x"), Some("Milk"), None, Some("100"), None, None, Some("2")]);
    assert!(matches!(decode_task(&bad, 9), Err(StoreError::Inconsistent)));
    let short = row(&[Some("1")]);
    assert!(matches!(decode_task(&short, 9), Err(StoreError::Inconsistent)));
}

#[test]
fn decode_list_handles_missing_and_bad_rows() {
    assert!(matches!(decode_list(&vec![], &vec![]), Ok(None)));
    assert!(matches!(decode_list(&vec![row(&[None, None, None])], &vec![]), Ok(None)));
    let missing = vec![row(&[Some("3"), None, None])];
    assert!(matches!(decode_list(&missing, &vec![]), Err(StoreError::Inconsistent)));
    let head = vec![row(&[Some("3"), Some("50"), Some("L")])];
    let t1 = row(&[Some("1"), Some("a"), None, Some("1"), Some("0"), Some("0"), Some("2")]);
    let t2 = row(&[Some("2"), Some("b"), Some("d"), Some("1"), Some("0"), Some("0"), Some("2")]);
    assert!(matches!(decode_list(&head, &vec![t1.clone(), t2]), Err(StoreError::Inconsistent)));
    match decode_list(&head, &vec![t1]) {
        Ok(Some(l)) => {
            assert_eq!(l.id, Some(3));
            assert_eq!(l.create_timestamp, 50);
            assert_eq!(l.name, Some("L".to_string()));
            assert_eq!(l.tasks.len(), 1);
            assert_eq!(l.tasks[0].task_list_id, 3);
        }
        _ => panic!("list decodes"),
    }
}

#[test]
fn task_line_with_and_without_description() {
    assert_eq!(task_line_of(12, "T", &Some("d".to_string()), "*"), "12. T: d *");
    assert_eq!(task_line_of(3, "T", &None, "*"), "3. T: *");
}

#[test]
fn list_text_underlines_by_bytes() {
    let lines = vec!["a".to_string(), "b".to_string()];
    assert_eq!(list_text_of(&Some("caf\u{e9}".to_string()), &lines), "caf\u{e9}\n=====\na\nb");
    assert_eq!(list_text_of(&None, &lines), "a\nb");
    assert_eq!(list_text_of(&None, &vec![]), "");
}

#[test]
fn paint_task_shows_index_title_and_mark() {
    let painter = Painter {};
    let mut t = task("Milk", Some("2l"), 10);
    assert_eq!(painter.paint_task(&t), "10. Milk: 2l \u{25cf}");
    t.done = true;
    t.description = None;
    assert_eq!(painter.paint_task(&t), "10. Milk: \u{2713}");
}

#[test]
fn paint_task_list_joins_lines() {
    let painter = Painter {};
    let mut l = list_with(&[1, 2]);
    l.name = Some("N".to_string());
    assert_eq!(painter.paint_task_list(&l), "N\n=\n1. t: \u{25cf}\n2. t: \u{25cf}");
}

#[test]
fn timestamp_is_after_2020() {
    assert!(timestamp() > 1_577_836_800_000);
}
