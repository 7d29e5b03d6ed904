use rem::date::{date_from_parts, Date};
use rem::types::{Rem, Todo, TodoError};

fn d(year: u32, month: u32, day: u32) -> Date {
    Date { year, month, day }
}

#[test]
fn listing_numbers_every_task() {
    let today = d(2024, 3, 15);
    let store = Rem {
        todos: vec![
            Todo::Regular { content: "water plants".to_string(), done: false },
            Todo::Daily {
                content: "stretch".to_string(),
                streak: 3,
                last_marked_done: Some(d(2024, 3, 14)),
                last_marked_done_backup: None,
                longest_streak: 5,
            },
            Todo::Scheduled { content: "taxes".to_string(), due: d(2024, 4, 15), done: false },
        ],
    };
    assert_eq!(
        store.listing(today),
        "1. \u{f00d} water plants\n\
         2. \u{f00d} stretch (daily, streak: 3, longest: 5) (last done: 2024-03-14)\n\
         3. \u{f00d} taxes (scheduled, deadline: 2024-04-15) (due)\n"
    );
}

#[test]
fn listing_of_empty_store_is_empty() {
    let store = Rem { todos: Vec::new() };
    assert_eq!(store.listing(d(2024, 3, 15)), "");
    assert_eq!(store.pending_text(d(2024, 3, 15)), "");
}

#[test]
fn daily_listing_omits_equal_longest_and_missing_date() {
    let today = d(2024, 3, 15);
    let store = Rem {
        todos: vec![Todo::Daily {
            content: "stretch".to_string(),
            streak: 4,
            last_marked_done: None,
            last_marked_done_backup: None,
            longest_streak: 4,
        }],
    };
    assert_eq!(store.listing(today), "1. \u{f00d} stretch (daily, streak: 4)\n");
}

#[test]
fn scheduled_listing_marks_overdue() {
    let today = d(2024, 3, 15);
    let store = Rem {
        todos: vec![
            Todo::Scheduled { content: "late".to_string(), due: d(2024, 3, 14), done: false },
            Todo::Scheduled { content: "late but done".to_string(), due: d(2024, 3, 14), done: true },
            Todo::Scheduled { content: "due today".to_string(), due: d(2024, 3, 15), done: false },
        ],
    };
    assert_eq!(
        store.listing(today),
        "1. \u{f00d} late (scheduled, deadline: 2024-03-14) (overdue)\n\
         2. \u{f42e} late but done (scheduled, deadline: 2024-03-14) (due)\n\
         3. \u{f00d} due today (scheduled, deadline: 2024-03-15) (due)\n"
    );
}

#[test]
fn pending_skips_done_and_today() {
    let today = d(2024, 3, 15);
    let store = Rem {
        todos: vec![
            Todo::Regular { content: "done already".to_string(), done: true },
            Todo::Regular { content: "open".to_string(), done: false },
            Todo::Daily {
                content: "done today".to_string(),
                streak: 2,
                last_marked_done: Some(today),
                last_marked_done_backup: Some(d(2024, 3, 14)),
                longest_streak: 2,
            },
            Todo::Daily {
                content: "missed".to_string(),
                streak: 7,
                last_marked_done: Some(d(2024, 3, 13)),
                last_marked_done_backup: None,
                longest_streak: 9,
            },
            Todo::Scheduled { content: "taxes".to_string(), due: d(2024, 3, 1), done: false },
        ],
    };
    assert_eq!(
        store.pending_text(today),
        "2. \u{f00d} open\n\
         4.  missed (daily, streak: 7)\n\
         5. \u{f00d} taxes (scheduled, deadline: 2024-03-01) (overdue)\n"
    );
}

#[test]
fn pending_counts_never_done_daily_as_pending() {
    let today = d(2024, 3, 15);
    let store = Rem {
        todos: vec![Todo::Daily {
            content: "stretch".to_string(),
            streak: 0,
            last_marked_done: None,
            last_marked_done_backup: None,
            longest_streak: 12,
        }],
    };
    assert_eq!(store.pending_text(today), "1.  stretch (daily, streak: 0)\n");
}

#[test]
fn listing_numbers_past_nine() {
    let today = d(2024, 3, 15);
    let todos: Vec<Todo> = (0..12)
        .map(|i| Todo::Regular { content: format!("task {i}"), done: false })
        .collect();
    let store = Rem { todos };
    let text = store.listing(today);
    assert!(text.contains("10. \u{f00d} task 9\n"));
    assert!(text.contains("12. \u{f00d} task 11\n"));
}

#[test]
fn single_task_text() {
    let today = d(2024, 3, 15);
    let t = Todo::Daily {
        content: "stretch".to_string(),
        streak: 3,
        last_marked_done: Some(d(2024, 3, 14)),
        last_marked_done_backup: None,
        longest_streak: 5,
    };
    assert_eq!(
        t.text(today),
        "\u{f00d} stretch (daily, streak: 3, longest: 5) (last done: 2024-03-14)"
    );
    let done = Todo::Regular { content: "water plants".to_string(), done: true };
    assert_eq!(done.text(today), "\u{f42e} water plants");
}

#[test]
fn marker_reflects_completion() {
    let today = d(2024, 3, 15);
    let open = Todo::Regular { content: "x".to_string(), done: false };
    let closed = Todo::Regular { content: "x".to_string(), done: true };
    assert_eq!(open.text(today), "\u{f00d} x");
    assert_eq!(closed.text(today), "\u{f42e} x");
    let daily_done_today = Todo::Daily {
        content: "stretch".to_string(),
        streak: 2,
        last_marked_done: Some(today),
        last_marked_done_backup: Some(d(2024, 3, 14)),
        longest_streak: 2,
    };
    assert_eq!(
        daily_done_today.text(today),
        "\u{f42e} stretch (daily, streak: 2) (last done: 2024-03-15)"
    );
    let scheduled_done = Todo::Scheduled { content: "y".to_string(), due: d(2024, 3, 1), done: true };
    let scheduled_open = Todo::Scheduled { content: "y".to_string(), due: d(2024, 3, 1), done: false };
    assert_eq!(scheduled_done.text(today), "\u{f42e} y (scheduled, deadline: 2024-03-01) (due)");
    assert_eq!(scheduled_open.text(today), "\u{f00d} y (scheduled, deadline: 2024-03-01) (overdue)");
}

#[test]
fn date_from_parts_accepts_exactly_valid_dates() {
    assert_eq!(date_from_parts(2024, 2, 29), Some(d(2024, 2, 29)));
    assert_eq!(date_from_parts(2023, 2, 29), None);
    assert_eq!(date_from_parts(-1, 1, 1), None);
    assert_eq!(date_from_parts(10000, 1, 1), None);
    assert_eq!(date_from_parts(2024, 0, 1), None);
    assert_eq!(date_from_parts(2024, 13, 1), None);
    assert_eq!(date_from_parts(2024, 4, 31), None);
    assert_eq!(date_from_parts(0, 12, 31), Some(d(0, 12, 31)));
}

#[test]
fn error_messages() {
    assert_eq!(
        TodoError::InvalidIndex { min: 1, max: 42 }.message(),
        "Invalid index, valid range is 1-42"
    );
    assert_eq!(
        TodoError::InvalidDate.message(),
        "Invalid date format, should be YYYY-MM-DD"
    );
}
