//! The task store and its date-driven transition logic: toggling a task by
//! position, appending a new task, and the passive maintenance pass that
//! decays recurring-task streaks for elapsed days.

use vstd::prelude::*;
use crate::cli::NewTodoParams;
use crate::date::{
    Date, date_before, date_lt, next_day, next_day_of, parse_date, spec_parse_date, valid_date,
};

verus! {

/// The task store: an ordered collection of tasks, addressed by 1-based
/// position.
#[derive(Debug)]
pub struct Rem {
    pub todos: Vec<Todo>,
}

/// One task.
///
/// - `Regular`: a binary completion flag.
/// - `Daily`: a recurring task tracked by a consecutive-day completion
///   streak.  `last_marked_done` is the day it was last completed (absent
///   means never), `last_marked_done_backup` remembers the previous such
///   day so that one same-day toggle can be undone, and `longest_streak`
///   is the highest streak reached.
/// - `Scheduled`: a binary completion flag plus an immutable due date.
#[derive(Clone, Debug, PartialEq)]
pub enum Todo {
    Regular { content: String, done: bool },
    Daily {
        content: String,
        streak: u32,
        last_marked_done: Option<Date>,
        last_marked_done_backup: Option<Date>,
        longest_streak: u32,
    },
    Scheduled { content: String, due: Date, done: bool },
}

/// The recoverable errors: a toggle position outside the store's 1-based
/// range, and a due date that is not a real `YYYY-MM-DD` calendar date.
#[derive(Clone, Copy, Debug, PartialEq, Eq, Structural)]
pub enum TodoError {
    InvalidIndex { min: usize, max: usize },
    InvalidDate,
}

/// Every date a task records is a valid calendar date.  The store only
/// ever writes valid dates, so this holds of every store the system saves.
pub open spec fn todo_wf(t: Todo) -> bool {
    match t {
        Todo::Regular { .. } => true,
        Todo::Scheduled { due, .. } => valid_date(due),
        Todo::Daily { last_marked_done, last_marked_done_backup, .. } => {
            &&& (last_marked_done matches Some(d) ==> valid_date(d))
            &&& (last_marked_done_backup matches Some(d) ==> valid_date(d))
        },
    }
}

/// A decrement that clamps at zero instead of underflowing.
pub open spec fn dec_clamped(x: u32) -> u32 {
    if x == 0 {
        0u32
    } else {
        (x - 1) as u32
    }
}

/// The recurring-task transition for one toggle on `today`, as
/// `(streak, longest_streak, last_marked_done, backup)` before and after:
///
/// - never completed: the streak grows by one and today is recorded;
/// - last completed exactly one day ago: the previous date is backed up,
///   the streak grows by one and today is recorded;
/// - last completed more than one day ago: the previous date is backed up,
///   the streak restarts at one and today is recorded;
/// - already completed today (same-day undo): the streak and the longest
///   streak each go down by one, clamping at zero, and the backed-up date
///   is restored;
/// - the recorded date lies in the future (clock anomaly): the streak
///   restarts at one and today is recorded, with no backup taken.
///
/// After every branch the longest streak is folded up to the streak.
pub open spec fn toggle_daily_spec(
    streak: u32,
    longest: u32,
    last: Option<Date>,
    backup: Option<Date>,
    today: Date,
) -> (u32, u32, Option<Date>, Option<Date>) {
    let (s, l, last2, backup2) = match last {
        None => (((streak + 1) as u32), longest, Some(today), backup),
        Some(ld) => {
            if ld == today {
                (dec_clamped(streak), dec_clamped(longest), backup, backup)
            } else if date_lt(ld, today) {
                (
                    if next_day(ld) == today {
                        (streak + 1) as u32
                    } else {
                        1u32
                    },
                    longest,
                    Some(today),
                    Some(ld),
                )
            } else {
                (1u32, longest, Some(today), backup)
            }
        },
    };
    (
        s,
        if s > l {
            s
        } else {
            l
        },
        last2,
        backup2,
    )
}

/// What one toggle on `today` makes of a task: simple and scheduled tasks
/// flip their completion flag; recurring tasks step as `toggle_daily_spec`
/// says.
pub open spec fn toggle_done_spec(t: Todo, today: Date) -> Todo {
    match t {
        Todo::Regular { content, done } => Todo::Regular { content, done: !done },
        Todo::Scheduled { content, due, done } => Todo::Scheduled { content, due, done: !done },
        Todo::Daily { content, streak, last_marked_done, last_marked_done_backup, longest_streak } => {
            let r = toggle_daily_spec(
                streak,
                longest_streak,
                last_marked_done,
                last_marked_done_backup,
                today,
            );
            Todo::Daily {
                content,
                streak: r.0,
                last_marked_done: r.2,
                last_marked_done_backup: r.3,
                longest_streak: r.1,
            }
        },
    }
}

/// The machine-limit precondition of a toggle: in the two branches that
/// grow a streak, the streak must still fit in `u32` afterwards.
pub open spec fn toggle_safe(t: Todo, today: Date) -> bool {
    t matches Todo::Daily { streak, last_marked_done, .. } ==> ((last_marked_done is None || (
    last_marked_done matches Some(ld)
        && date_lt(ld, today)
        && next_day(ld) == today)) ==> streak < u32::MAX)
}

/// What the maintenance pass makes of a task on `today`:
///
/// - recurring, last completed more than one day ago: the streak is folded
///   into the longest streak and zeroed, and the stale date is copied into
///   the backup (the date itself is kept);
/// - recurring, last completed exactly one day ago or today: no change;
/// - recurring, recorded date in the future (clock anomaly): the streak
///   restarts at one and today is recorded;
/// - recurring but never completed, simple, scheduled: no change.
pub open spec fn advance_spec(t: Todo, today: Date) -> Todo {
    match t {
        Todo::Daily { content, streak, last_marked_done, last_marked_done_backup, longest_streak } => {
            match last_marked_done {
                Some(ld) => {
                    if date_lt(ld, today) {
                        if next_day(ld) == today {
                            t
                        } else {
                            Todo::Daily {
                                content,
                                streak: 0,
                                last_marked_done,
                                last_marked_done_backup: Some(ld),
                                longest_streak: if streak > longest_streak {
                                    streak
                                } else {
                                    longest_streak
                                },
                            }
                        }
                    } else if ld == today {
                        t
                    } else {
                        Todo::Daily {
                            content,
                            streak: 1,
                            last_marked_done: Some(today),
                            last_marked_done_backup,
                            longest_streak,
                        }
                    }
                },
                None => t,
            }
        },
        _ => t,
    }
}

/// What task construction yields: a recurring flag takes precedence and
/// starts an empty streak; otherwise a present due date must be a real
/// `YYYY-MM-DD` calendar date and yields a scheduled task, failing with
/// `InvalidDate` when it is not; otherwise a simple task.
pub open spec fn create_spec(params: NewTodoParams) -> Result<Todo, TodoError> {
    if params.daily {
        Ok(
            Todo::Daily {
                content: params.content,
                streak: 0,
                last_marked_done: None,
                last_marked_done_backup: None,
                longest_streak: 0,
            },
        )
    } else {
        match params.due {
            Some(s) => match spec_parse_date(s@) {
                Some(d) => Ok(Todo::Scheduled { content: params.content, due: d, done: false }),
                None => Err(TodoError::InvalidDate),
            },
            None => Ok(Todo::Regular { content: params.content, done: false }),
        }
    }
}

/// One toggle, by value.
fn toggled(t: Todo, today: Date) -> (r: Todo)
    requires
        todo_wf(t),
        valid_date(today),
        toggle_safe(t, today),
    ensures
        r == toggle_done_spec(t, today),
        todo_wf(r),
{
    match t {
        Todo::Regular { content, done } => Todo::Regular { content, done: !done },
        Todo::Scheduled { content, due, done } => Todo::Scheduled { content, due, done: !done },
        Todo::Daily { content, streak, last_marked_done, last_marked_done_backup, longest_streak } => {
            let (new_streak, new_longest, new_last, new_backup): (
                u32,
                u32,
                Option<Date>,
                Option<Date>,
            ) = match last_marked_done {
                None => (streak + 1, longest_streak, Some(today), last_marked_done_backup),
                Some(ld) => {
                    if ld == today {
                        (
                            if streak == 0 {
                                0
                            } else {
                                streak - 1
                            },
                            if longest_streak == 0 {
                                0
                            } else {
                                longest_streak - 1
                            },
                            last_marked_done_backup,
                            last_marked_done_backup,
                        )
                    } else if date_before(&ld, &today) {
                        (
                            if next_day_of(&ld) == today {
                                streak + 1
                            } else {
                                1
                            },
                            longest_streak,
                            Some(today),
                            Some(ld),
                        )
                    } else {
                        (1, longest_streak, Some(today), last_marked_done_backup)
                    }
                },
            };
            let folded: u32 = if new_streak > new_longest {
                new_streak
            } else {
                new_longest
            };
            Todo::Daily {
                content,
                streak: new_streak,
                last_marked_done: new_last,
                last_marked_done_backup: new_backup,
                longest_streak: folded,
            }
        },
    }
}

/// One maintenance step, by value.
fn advanced(t: Todo, today: Date) -> (r: Todo)
    requires
        todo_wf(t),
        valid_date(today),
    ensures
        r == advance_spec(t, today),
        todo_wf(r),
{
    match t {
        Todo::Daily { content, streak, last_marked_done, last_marked_done_backup, longest_streak } => {
            match last_marked_done {
                Some(ld) => {
                    if date_before(&ld, &today) {
                        if next_day_of(&ld) == today {
                            Todo::Daily {
                                content,
                                streak,
                                last_marked_done,
                                last_marked_done_backup,
                                longest_streak,
                            }
                        } else {
                            Todo::Daily {
                                content,
                                streak: 0,
                                last_marked_done,
                                last_marked_done_backup: Some(ld),
                                longest_streak: if streak > longest_streak {
                                    streak
                                } else {
                                    longest_streak
                                },
                            }
                        }
                    } else if ld == today {
                        Todo::Daily {
                            content,
                            streak,
                            last_marked_done,
                            last_marked_done_backup,
                            longest_streak,
                        }
                    } else {
                        Todo::Daily {
                            content,
                            streak: 1,
                            last_marked_done: Some(today),
                            last_marked_done_backup,
                            longest_streak,
                        }
                    }
                },
                None => Todo::Daily {
                    content,
                    streak,
                    last_marked_done,
                    last_marked_done_backup,
                    longest_streak,
                },
            }
        },
        other => other,
    }
}

impl Todo {
    /// Builds a task from add-operation parameters, exactly as
    /// `create_spec` says.
    pub fn new(params: &NewTodoParams) -> (r: Result<Todo, TodoError>)
        ensures
            r == create_spec(*params),
            r matches Ok(t) ==> todo_wf(t),
    {
        if params.daily {
            Ok(
                Todo::Daily {
                    content: params.content.clone(),
                    streak: 0,
                    last_marked_done: None,
                    last_marked_done_backup: None,
                    longest_streak: 0,
                },
            )
        } else if let Some(due) = &params.due {
            match parse_date(due.as_str()) {
                Some(d) => Ok(
                    Todo::Scheduled { content: params.content.clone(), due: d, done: false },
                ),
                None => Err(TodoError::InvalidDate),
            }
        } else {
            Ok(Todo::Regular { content: params.content.clone(), done: false })
        }
    }

    /// Applies one user toggle on `today`, exactly as `toggle_done_spec`
    /// says.
    pub fn toggle_done(&mut self, today: Date)
        requires
            todo_wf(*old(self)),
            valid_date(today),
            toggle_safe(*old(self), today),
        ensures
            *final(self) == toggle_done_spec(*old(self), today),
            todo_wf(*final(self)),
    {
        let mut tmp = Todo::Regular { content: String::new(), done: false };
        core::mem::swap(self, &mut tmp);
        *self = toggled(tmp, today);
    }
}

impl Rem {
    /// Every task in the store is well formed.
    pub open spec fn wf(self) -> bool {
        forall|i: int| 0 <= i < self.todos@.len() ==> todo_wf(#[trigger] self.todos@[i])
    }

    /// Toggles the task at the 1-based `index` on `today`.  Fails with
    /// `InvalidIndex` exactly when the index is 0 or exceeds the store's
    /// length, and then changes nothing.
    pub fn toggle_todo(&mut self, index: usize, today: Date) -> (r: Result<(), TodoError>)
        requires
            old(self).wf(),
            valid_date(today),
            1 <= index <= old(self).todos@.len() ==> toggle_safe(
                old(self).todos@[index - 1],
                today,
            ),
        ensures
            final(self).wf(),
            match r {
                Ok(()) => {
                    &&& 1 <= index <= old(self).todos@.len()
                    &&& final(self).todos@ == old(self).todos@.update(
                        index - 1,
                        toggle_done_spec(old(self).todos@[index - 1], today),
                    )
                },
                Err(e) => {
                    &&& !(1 <= index <= old(self).todos@.len())
                    &&& e == (TodoError::InvalidIndex {
                        min: 1,
                        max: old(self).todos@.len() as usize,
                    })
                    &&& *final(self) == *old(self)
                },
            },
    {
        if index == 0 || index > self.todos.len() {
            return Err(TodoError::InvalidIndex { min: 1, max: self.todos.len() });
        }
        let mut t = self.todos.remove(index - 1);
        t.toggle_done(today);
        self.todos.insert(index - 1, t);
        proof {
            assert(self.todos@ =~= old(self).todos@.update(
                index - 1,
                toggle_done_spec(old(self).todos@[index - 1], today),
            ));
            assert forall|i: int| 0 <= i < self.todos@.len() implies todo_wf(
                #[trigger] self.todos@[i],
            ) by {
                if i != index - 1 {
                    assert(self.todos@[i] == old(self).todos@[i]);
                }
            }
        }
        Ok(())
    }

    /// Builds a task from the parameters and appends it to the store.
    /// Fails with `InvalidDate` exactly when construction does, and then
    /// changes nothing.
    pub fn add_todo(&mut self, params: &NewTodoParams) -> (r: Result<(), TodoError>)
        requires
            old(self).wf(),
        ensures
            final(self).wf(),
            match create_spec(*params) {
                Ok(t) => r == Ok::<(), TodoError>(()) && final(self).todos@ == old(
                    self,
                ).todos@.push(t),
                Err(e) => r == Err::<(), TodoError>(e) && *final(self) == *old(self),
            },
    {
        match Todo::new(params) {
            Ok(todo) => {
                self.todos.push(todo);
                proof {
                    assert forall|i: int| 0 <= i < self.todos@.len() implies todo_wf(
                        #[trigger] self.todos@[i],
                    ) by {
                        if i < self.todos@.len() - 1 {
                            assert(self.todos@[i] == old(self).todos@[i]);
                        }
                    }
                }
                Ok(())
            },
            Err(e) => Err(e),
        }
    }

    /// The passive maintenance pass: advances every task for elapsed days,
    /// exactly as `advance_spec` says, touching nothing else.
    pub fn update_state(&mut self, today: Date)
        requires
            old(self).wf(),
            valid_date(today),
        ensures
            final(self).wf(),
            final(self).todos@.len() == old(self).todos@.len(),
            forall|i: int| 0 <= i < old(self).todos@.len() ==> final(self).todos@[i]
                == advance_spec(old(self).todos@[i], today),
    {
        let mut i: usize = 0;
        while i < self.todos.len()
            invariant
                valid_date(today),
                old(self).wf(),
                i <= self.todos@.len(),
                self.todos@.len() == old(self).todos@.len(),
                forall|j: int| 0 <= j < i ==> #[trigger] self.todos@[j] == advance_spec(
                    old(self).todos@[j],
                    today,
                ),
                forall|j: int| i <= j < self.todos@.len() ==> #[trigger] self.todos@[j] == old(
                    self,
                ).todos@[j],
                forall|j: int| 0 <= j < self.todos@.len() ==> todo_wf(#[trigger] self.todos@[j]),
            decreases self.todos@.len() - i,
        {
            let t = self.todos.remove(i);
            let t2 = advanced(t, today);
            self.todos.insert(i, t2);
            i += 1;
        }
    }
}

} // verus!
