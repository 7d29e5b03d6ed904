//! The laws of the transition logic, each proved once and for all: toggle
//! round trips, the streak arithmetic of continued and broken streaks, and
//! the behaviour of the maintenance pass.

use vstd::prelude::*;
use crate::date::{Date, date_lt, lemma_next_day_gt, next_day, valid_date};
use crate::types::{Todo, advance_spec, todo_wf, toggle_done_spec};

verus! {

/// Toggling a simple or scheduled task twice restores it exactly, and in
/// particular its `done` flag.
pub proof fn lemma_toggle_twice_restores(t: Todo, today: Date)
    requires
        t is Regular || t is Scheduled,
    ensures
        toggle_done_spec(toggle_done_spec(t, today), today) == t,
{
}

/// In a store, toggling a simple or scheduled task at any valid position
/// twice leaves the store exactly as it was.
pub proof fn lemma_toggle_twice_restores_store(todos: Seq<Todo>, i: int, today: Date)
    requires
        0 <= i < todos.len(),
        todos[i] is Regular || todos[i] is Scheduled,
    ensures
        todos.update(i, toggle_done_spec(toggle_done_spec(todos[i], today), today)) == todos,
{
    lemma_toggle_twice_restores(todos[i], today);
    assert(todos.update(i, todos[i]) =~= todos);
}

/// A recurring task never completed: one toggle starts a streak of one and
/// records today; a second toggle the same day restores a streak of zero
/// and no recorded completion.
pub proof fn lemma_toggle_fresh_daily_round_trip(t: Todo, today: Date)
    requires
        t is Daily,
        t->Daily_streak == 0,
        t->Daily_last_marked_done is None,
        t->Daily_last_marked_done_backup is None,
    ensures
        toggle_done_spec(t, today)->Daily_streak == 1,
        toggle_done_spec(t, today)->Daily_last_marked_done == Some(today),
        toggle_done_spec(toggle_done_spec(t, today), today)->Daily_streak == 0,
        toggle_done_spec(toggle_done_spec(t, today), today)->Daily_last_marked_done is None,
{
}

/// Continued streak: a recurring task last completed exactly one day ago
/// gains one on its streak, and the longest streak is folded up to the new
/// streak.
pub proof fn lemma_toggle_continues_streak(t: Todo, today: Date)
    requires
        t is Daily,
        t->Daily_last_marked_done matches Some(ld) && next_day(ld) == today,
        t->Daily_last_marked_done matches Some(ld) && valid_date(ld),
        t->Daily_streak < u32::MAX,
    ensures
        toggle_done_spec(t, today)->Daily_streak == t->Daily_streak + 1,
        toggle_done_spec(t, today)->Daily_longest_streak == (
        if t->Daily_streak + 1 > t->Daily_longest_streak {
            t->Daily_streak + 1
        } else {
            t->Daily_longest_streak as int
        }),
{
    match t->Daily_last_marked_done {
        Some(ld) => lemma_next_day_gt(ld),
        None => assert(false),
    }
}

/// Broken streak: a recurring task last completed more than one day ago
/// restarts its streak at one.
pub proof fn lemma_toggle_restarts_streak(t: Todo, today: Date)
    requires
        t is Daily,
        t->Daily_last_marked_done matches Some(ld) && date_lt(ld, today) && next_day(ld) != today,
    ensures
        toggle_done_spec(t, today)->Daily_streak == 1,
{
}

/// The maintenance pass on a recurring task last completed more than one
/// day ago zeroes the streak and folds the previous streak into the
/// longest streak where it is larger.
pub proof fn lemma_advance_breaks_streak(t: Todo, today: Date)
    requires
        t is Daily,
        t->Daily_last_marked_done matches Some(ld) && date_lt(ld, today) && next_day(ld) != today,
    ensures
        advance_spec(t, today)->Daily_streak == 0,
        advance_spec(t, today)->Daily_longest_streak == (
        if t->Daily_streak > t->Daily_longest_streak {
            t->Daily_streak
        } else {
            t->Daily_longest_streak
        }),
{
}

/// After any toggle of a recurring task the streak never exceeds the
/// longest streak: the final fold restores the steady-state bound even
/// where a same-day undo has pulled the longest streak down.
pub proof fn lemma_toggle_keeps_streak_bound(t: Todo, today: Date)
    requires
        t is Daily,
    ensures
        toggle_done_spec(t, today)->Daily_streak <= toggle_done_spec(t, today)->Daily_longest_streak,
{
}

/// The maintenance pass is idempotent for a fixed current date.
pub proof fn lemma_advance_idempotent(t: Todo, today: Date)
    requires
        todo_wf(t),
        valid_date(today),
    ensures
        advance_spec(advance_spec(t, today), today) == advance_spec(t, today),
{
}

} // verus!
