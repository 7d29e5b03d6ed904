use rem::cli::{Cli, Commands, NewTodoParams};
use rem::date::Date;
use rem::types::{Rem, Todo, TodoError};

fn d(year: u32, month: u32, day: u32) -> Date {
    Date { year, month, day }
}

fn params(content: &str, due: Option<&str>, daily: bool) -> NewTodoParams {
    NewTodoParams { content: content.to_string(), due: due.map(|s| s.to_string()), daily }
}

#[test]
fn create_simple_task() {
    let t = Todo::new(&params("x", None, false)).unwrap();
    assert_eq!(t, Todo::Regular { content: "x".to_string(), done: false });
}

#[test]
fn create_scheduled_task() {
    let t = Todo::new(&params("x", Some("2024-01-01"), false)).unwrap();
    assert_eq!(
        t,
        Todo::Scheduled { content: "x".to_string(), due: d(2024, 1, 1), done: false }
    );
}

#[test]
fn create_rejects_invalid_date() {
    assert_eq!(
        Todo::new(&params("x", Some("2024-13-40"), false)),
        Err(TodoError::InvalidDate)
    );
}

#[test]
fn create_daily_takes_precedence_over_due() {
    let t = Todo::new(&params("x", Some("not a date"), true)).unwrap();
    assert_eq!(
        t,
        Todo::Daily {
            content: "x".to_string(),
            streak: 0,
            last_marked_done: None,
            last_marked_done_backup: None,
            longest_streak: 0,
        }
    );
}

#[test]
fn add_todo_appends() {
    let mut store = Rem { todos: Vec::new() };
    store.add_todo(&params("first", None, false)).unwrap();
    store.add_todo(&params("second", Some("2024-06-30"), false)).unwrap();
    assert_eq!(store.todos.len(), 2);
    assert_eq!(
        store.todos[1],
        Todo::Scheduled { content: "second".to_string(), due: d(2024, 6, 30), done: false }
    );
}

#[test]
fn add_todo_rejects_bad_due_date_and_keeps_store() {
    let mut store = Rem { todos: Vec::new() };
    assert_eq!(
        store.add_todo(&params("x", Some("2024-02-30"), false)),
        Err(TodoError::InvalidDate)
    );
    assert!(store.todos.is_empty());
}

#[test]
fn command_new_adds_and_prints_nothing() {
    let today = d(2024, 3, 15);
    let mut store = Rem { todos: Vec::new() };
    let cli = Cli { command: Some(Commands::New(params("walk", None, true))) };
    assert_eq!(cli.handle_cli(&mut store, today), Ok(None));
    assert_eq!(store.todos.len(), 1);
}

#[test]
fn command_toggle_flips_and_reports_errors() {
    let today = d(2024, 3, 15);
    let mut store = Rem {
        todos: vec![Todo::Regular { content: "a".to_string(), done: false }],
    };
    let cli = Cli { command: Some(Commands::Toggle { index: 1 }) };
    assert_eq!(cli.handle_cli(&mut store, today), Ok(None));
    assert_eq!(store.todos[0], Todo::Regular { content: "a".to_string(), done: true });
    let bad = Cli { command: Some(Commands::Toggle { index: 2 }) };
    assert_eq!(
        bad.handle_cli(&mut store, today),
        Err(TodoError::InvalidIndex { min: 1, max: 1 })
    );
}

#[test]
fn command_all_lists_everything() {
    let today = d(2024, 3, 15);
    let mut store = Rem {
        todos: vec![
            Todo::Regular { content: "a".to_string(), done: true },
            Todo::Regular { content: "b".to_string(), done: false },
        ],
    };
    let cli = Cli { command: Some(Commands::All) };
    assert_eq!(
        cli.handle_cli(&mut store, today),
        Ok(Some("1. \u{f42e} a\n2. \u{f00d} b\n".to_string()))
    );
}

#[test]
fn command_pending_and_default_list_pending() {
    let today = d(2024, 3, 15);
    let mut store = Rem {
        todos: vec![
            Todo::Regular { content: "a".to_string(), done: true },
            Todo::Regular { content: "b".to_string(), done: false },
        ],
    };
    let pending = Cli { command: Some(Commands::Pending) };
    assert_eq!(
        pending.handle_cli(&mut store, today),
        Ok(Some("2. \u{f00d} b\n".to_string()))
    );
    let default = Cli { command: None };
    assert_eq!(
        default.handle_cli(&mut store, today),
        Ok(Some("2. \u{f00d} b\n".to_string()))
    );
}
