use taskboard::state::{confirm_add, confirm_delete, step, AppState, Event, Intent, Key, Menu};
use taskboard::task::{Error, Task};
use taskboard::view::{compose, render_home, render_task, BodyPanel, DetailPanel};

fn task(id: u64, title: &str, category: &str, created_at: i64) -> Task {
    Task { id, title: title.to_string(), category: category.to_string(), created_at }
}

#[test]
fn compose_is_idempotent() {
    let tasks = vec![task(1, "write", "work", 1_431_648_000), task(2, "rest", "life", 0)];
    let s = AppState { menu: Menu::Task, selection: Some(1), running: true };
    let first = compose(&s, &tasks, &None);
    let second = compose(&s, &tasks, &None);
    assert_eq!(first, second);

    let home = AppState { menu: Menu::Home, selection: Some(0), running: true };
    assert_eq!(compose(&home, &tasks, &None), compose(&home, &tasks, &None));
}

#[test]
fn frame_shape_and_tabs() {
    let tasks = vec![task(1, "write", "work", 0)];
    let s = AppState { menu: Menu::Task, selection: Some(0), running: true };
    let frame = compose(&s, &tasks, &None);
    assert_eq!(
        frame.tabs.titles,
        vec!["HOME", "TASK", "ADD", "DELETE", "QUIT"]
    );
    assert_eq!(frame.tabs.selected, 1);
    assert_eq!(frame.footer, "This is the footer of the App");
    assert_eq!(frame.banner, None);

    let home = AppState { menu: Menu::Home, ..s };
    assert_eq!(compose(&home, &tasks, &None).tabs.selected, 0);
}

#[test]
fn home_body_holds_the_welcome_text() {
    let lines = render_home();
    assert_eq!(lines.len(), 8);
    assert_eq!(lines[1], "Welcome");
    assert_eq!(lines[3], "to");
    assert_eq!(lines[5], "TODO_LIST");
    assert_eq!(
        lines[7],
        "Press t to access tasks, 'a' to add a random new task and 'd' to delete the currently selected task"
    );

    let s = AppState { menu: Menu::Home, selection: None, running: true };
    let frame = compose(&s, &Vec::new(), &None);
    match frame.body {
        BodyPanel::Home { lines: l } => assert_eq!(l, lines),
        _ => panic!("home menu must compose the home body"),
    }
}

#[test]
fn task_body_lists_titles_and_detail() {
    let tasks = vec![task(1, "write", "work", 1_431_648_000), task(2, "rest", "life", 0)];
    let panel = render_task(Some(0), &tasks);
    assert_eq!(panel.items, vec!["write", "rest"]);
    assert_eq!(panel.selected, Some(0));
    assert_eq!(panel.list_width_pct, 20);
    assert_eq!(panel.detail_width_pct, 80);
    match panel.detail {
        DetailPanel::Row { id, title, category, created_at } => {
            assert_eq!(id, 1);
            assert_eq!(title, "write");
            assert_eq!(category, "work");
            // chrono's default rendering of 1431648000 s since the epoch, UTC.
            assert_eq!(created_at, "2015-05-15 00:00:00 UTC");
        }
        DetailPanel::Empty => panic!("a valid selection must show the task's fields"),
    }
}

#[test]
fn empty_selection_shows_empty_state() {
    let panel = render_task(None, &Vec::new());
    assert!(panel.items.is_empty());
    assert_eq!(panel.selected, None);
    assert_eq!(panel.detail, DetailPanel::Empty);
}

#[test]
fn store_error_becomes_a_banner() {
    let s = AppState { menu: Menu::Home, selection: None, running: true };
    let read = compose(&s, &Vec::new(), &Some(Error::ReadDBError("missing".to_string())));
    assert_eq!(
        read.banner,
        Some("error reading the DB file: missing".to_string())
    );
    let parse = compose(&s, &Vec::new(), &Some(Error::ParseDBError("bad json".to_string())));
    assert_eq!(
        parse.banner,
        Some("error parsing the DB file: bad json".to_string())
    );
}

#[test]
fn error_messages() {
    assert_eq!(
        Error::ReadDBError("no such file".to_string()).message(),
        "error reading the DB file: no such file"
    );
    assert_eq!(
        Error::ParseDBError("expected value".to_string()).message(),
        "error parsing the DB file: expected value"
    );
}

#[test]
fn empty_add_delete_round_trip() {
    // Start on an empty snapshot, in the task view.
    let mut tasks: Vec<Task> = Vec::new();
    let s0 = AppState { menu: Menu::Home, selection: None, running: true };
    let (s1, i1) = step(&s0, &Event::Input(Key::Char('t')), &tasks);
    assert_eq!(i1, None);
    assert_eq!(s1.selection, None);
    let frame = compose(&s1, &tasks, &None);
    match frame.body {
        BodyPanel::Task(p) => assert_eq!(p.detail, DetailPanel::Empty),
        _ => panic!("task view must compose the task body"),
    }

    // Press 'a': the machine requests an add; the store appends id 1.
    let (s2, i2) = step(&s1, &Event::Input(Key::Char('a')), &tasks);
    assert_eq!(i2, Some(Intent::AddTask));
    tasks.push(task(1, "new task", "general", 1_431_648_000));
    let s3 = confirm_add(&s2, tasks.len());
    assert_eq!(s3.selection, Some(0));
    let frame = compose(&s3, &tasks, &None);
    match frame.body {
        BodyPanel::Task(p) => match p.detail {
            DetailPanel::Row { id, .. } => assert_eq!(id, 1),
            DetailPanel::Empty => panic!("the new task must be shown"),
        },
        _ => panic!("task view must compose the task body"),
    }

    // Press 'd': the machine requests deleting id 1; the store empties.
    let (s4, i4) = step(&s3, &Event::Input(Key::Char('d')), &tasks);
    assert_eq!(i4, Some(Intent::DeleteTask(1)));
    tasks.clear();
    let s5 = confirm_delete(&s4, tasks.len());
    assert_eq!(s5.selection, None);
    let frame = compose(&s5, &tasks, &None);
    match frame.body {
        BodyPanel::Task(p) => {
            assert!(p.items.is_empty());
            assert_eq!(p.detail, DetailPanel::Empty);
        }
        _ => panic!("task view must compose the task body"),
    }
}
