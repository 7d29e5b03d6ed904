//! Pure rendering of tasks, listings and error messages into the exact
//! text the surrounding program prints.

use vstd::prelude::*;
use vstd::string::StringExecFns;
use crate::date::{Date, date_before, date_lt, date_text, date_text_spec};
use crate::text::{dec_digits, push_dec};
use crate::types::{Rem, Todo, TodoError, todo_wf};

verus! {

/// The completion marker that opens a rendered task: one glyph for done,
/// another for not done.
pub open spec fn marker_spec(done: bool) -> Seq<char> {
    if done {
        "\u{f42e}"@
    } else {
        "\u{f00d}"@
    }
}

/// The rendered body of one task: a marker that reflects completion (for a
/// recurring task, completion today), the text, and the task kind's
/// annotations.
pub open spec fn todo_text_spec(t: Todo, today: Date) -> Seq<char> {
    match t {
        Todo::Regular { content, done } => marker_spec(done) + " "@ + content@,
        Todo::Daily { content, streak, last_marked_done, longest_streak, .. } => marker_spec(
            last_marked_done == Some(today),
        ) + " "@ + content@ + " (daily, streak: "@ + dec_digits(streak as nat) + (if streak
            < longest_streak {
            ", longest: "@ + dec_digits(longest_streak as nat)
        } else {
            Seq::<char>::empty()
        }) + ")"@ + (match last_marked_done {
            Some(d) => " (last done: "@ + date_text_spec(d) + ")"@,
            None => Seq::<char>::empty(),
        }),
        Todo::Scheduled { content, due, done } => marker_spec(done) + " "@ + content@
            + " (scheduled, deadline: "@ + date_text_spec(due) + ")"@ + (if date_lt(due, today)
            && !done {
            " (overdue)"@
        } else {
            " (due)"@
        }),
    }
}

/// One numbered line of the full listing.
pub open spec fn listing_line_spec(t: Todo, n: nat, today: Date) -> Seq<char> {
    dec_digits(n) + ". "@ + todo_text_spec(t, today) + "\n"@
}

/// The full listing of the first `k` tasks, numbered from 1.
pub open spec fn listing_upto_spec(todos: Seq<Todo>, today: Date, k: int) -> Seq<char>
    decreases k,
{
    if k <= 0 {
        Seq::empty()
    } else {
        listing_upto_spec(todos, today, k - 1) + listing_line_spec(todos[k - 1], k as nat, today)
    }
}

/// The full listing, one numbered line per task.
pub open spec fn listing_spec(todos: Seq<Todo>, today: Date) -> Seq<char> {
    listing_upto_spec(todos, today, todos.len() as int)
}

/// Whether a task counts as pending: not done; for a recurring task, not
/// completed today (never completed counts as pending).
pub open spec fn is_pending(t: Todo, today: Date) -> bool {
    match t {
        Todo::Regular { done, .. } => !done,
        Todo::Scheduled { done, .. } => !done,
        Todo::Daily { last_marked_done, .. } => last_marked_done != Some(today),
    }
}

/// The pending-listing line of one task at 1-based position `n`: recurring
/// tasks get a short form, the others the full rendered body; a task that
/// is not pending contributes nothing.
pub open spec fn pending_line_spec(t: Todo, n: nat, today: Date) -> Seq<char> {
    if is_pending(t, today) {
        match t {
            Todo::Daily { content, streak, .. } => dec_digits(n) + ".  "@ + content@
                + " (daily, streak: "@ + dec_digits(streak as nat) + ")"@ + "\n"@,
            _ => dec_digits(n) + ". "@ + todo_text_spec(t, today) + "\n"@,
        }
    } else {
        Seq::empty()
    }
}

/// The pending listing of the first `k` tasks.
pub open spec fn pending_upto_spec(todos: Seq<Todo>, today: Date, k: int) -> Seq<char>
    decreases k,
{
    if k <= 0 {
        Seq::empty()
    } else {
        pending_upto_spec(todos, today, k - 1) + pending_line_spec(todos[k - 1], k as nat, today)
    }
}

/// The pending listing, one numbered line per pending task.
pub open spec fn pending_spec(todos: Seq<Todo>, today: Date) -> Seq<char> {
    pending_upto_spec(todos, today, todos.len() as int)
}

/// The message of each error.
pub open spec fn error_text_spec(e: TodoError) -> Seq<char> {
    match e {
        TodoError::InvalidIndex { min, max } => "Invalid index, valid range is "@ + dec_digits(
            min as nat,
        ) + "-"@ + dec_digits(max as nat),
        TodoError::InvalidDate => "Invalid date format, should be YYYY-MM-DD"@,
    }
}

/// The one-glyph string of the completion marker.
fn marker_str(done: bool) -> (r: &'static str)
    ensures
        r@ == marker_spec(done),
{
    if done {
        "\u{f42e}"
    } else {
        "\u{f00d}"
    }
}

/// Appends the rendered body of one task.
#[verifier::rlimit(50)]
fn push_todo_text(out: &mut String, t: &Todo, today: Date)
    requires
        todo_wf(*t),
    ensures
        final(out)@ == old(out)@ + todo_text_spec(*t, today),
{
    match t {
        Todo::Regular { content, done } => {
            out.append(marker_str(*done));
            out.append(" ");
            out.append(content.as_str());
            assert(out@ =~= old(out)@ + todo_text_spec(*t, today));
        },
        Todo::Daily { content, streak, last_marked_done, longest_streak, .. } => {
            let done_today: bool = match last_marked_done {
                Some(d) => *d == today,
                None => false,
            };
            out.append(marker_str(done_today));
            out.append(" ");
            out.append(content.as_str());
            out.append(" (daily, streak: ");
            push_dec(out, *streak as usize);
            if *streak < *longest_streak {
                out.append(", longest: ");
                push_dec(out, *longest_streak as usize);
            }
            out.append(")");
            if let Some(d) = last_marked_done {
                out.append(" (last done: ");
                let dt = date_text(d);
                out.append(dt.as_str());
                out.append(")");
            }
            assert(out@ =~= old(out)@ + todo_text_spec(*t, today));
        },
        Todo::Scheduled { content, due, done } => {
            out.append(marker_str(*done));
            out.append(" ");
            out.append(content.as_str());
            out.append(" (scheduled, deadline: ");
            let dt = date_text(due);
            out.append(dt.as_str());
            out.append(")");
            if date_before(due, &today) && !*done {
                out.append(" (overdue)");
            } else {
                out.append(" (due)");
            }
            assert(out@ =~= old(out)@ + todo_text_spec(*t, today));
        },
    }
}

/// Appends one numbered listing line.
fn push_listing_line(out: &mut String, t: &Todo, n: usize, today: Date)
    requires
        todo_wf(*t),
    ensures
        final(out)@ == old(out)@ + listing_line_spec(*t, n as nat, today),
{
    push_dec(out, n);
    out.append(". ");
    push_todo_text(out, t, today);
    out.append("\n");
    assert(out@ =~= old(out)@ + listing_line_spec(*t, n as nat, today));
}

impl Todo {
    /// The rendered body of the task, as it appears in the full listing.
    pub fn text(&self, today: Date) -> (r: String)
        requires
            todo_wf(*self),
        ensures
            r@ == todo_text_spec(*self, today),
    {
        let mut out = String::new();
        push_todo_text(&mut out, self, today);
        out
    }
}

impl Rem {
    /// The full task listing, one numbered line per task.
    pub fn listing(&self, today: Date) -> (r: String)
        requires
            self.wf(),
        ensures
            r@ == listing_spec(self.todos@, today),
    {
        let mut out = String::new();
        let mut i: usize = 0;
        while i < self.todos.len()
            invariant
                self.wf(),
                i <= self.todos@.len(),
                out@ == listing_upto_spec(self.todos@, today, i as int),
            decreases self.todos@.len() - i,
        {
            assert(todo_wf(self.todos@[i as int]));
            push_listing_line(&mut out, &self.todos[i], i + 1, today);
            i += 1;
        }
        out
    }

    /// The pending listing: simple and scheduled tasks not done, and
    /// recurring tasks not completed today, each as one numbered line.
    pub fn pending_text(&self, today: Date) -> (r: String)
        requires
            self.wf(),
        ensures
            r@ == pending_spec(self.todos@, today),
    {
        let mut out = String::new();
        let mut i: usize = 0;
        while i < self.todos.len()
            invariant
                self.wf(),
                i <= self.todos@.len(),
                out@ == pending_upto_spec(self.todos@, today, i as int),
            decreases self.todos@.len() - i,
        {
            assert(todo_wf(self.todos@[i as int]));
            let ghost prev = out@;
            let t = &self.todos[i];
            match t {
                Todo::Daily { content, streak, last_marked_done, .. } => {
                    let pend: bool = match last_marked_done {
                        Some(d) => !(*d == today),
                        None => true,
                    };
                    if pend {
                        push_dec(&mut out, i + 1);
                        out.append(".  ");
                        out.append(content.as_str());
                        out.append(" (daily, streak: ");
                        push_dec(&mut out, *streak as usize);
                        out.append(")");
                        out.append("\n");
                    }
                },
                Todo::Regular { done, .. } => {
                    if !*done {
                        push_listing_line(&mut out, t, i + 1, today);
                    }
                },
                Todo::Scheduled { done, .. } => {
                    if !*done {
                        push_listing_line(&mut out, t, i + 1, today);
                    }
                },
            }
            assert(out@ =~= prev + pending_line_spec(self.todos@[i as int], (i + 1) as nat, today));
            assert(out@ =~= pending_upto_spec(self.todos@, today, (i + 1) as int));
            i += 1;
        }
        out
    }
}

impl TodoError {
    /// The human-readable message of the error.
    pub fn message(&self) -> (r: String)
        ensures
            r@ == error_text_spec(*self),
    {
        let mut out = String::new();
        match self {
            TodoError::InvalidIndex { min, max } => {
                out.append("Invalid index, valid range is ");
                push_dec(&mut out, *min);
                out.append("-");
                push_dec(&mut out, *max);
            },
            TodoError::InvalidDate => {
                out.append("Invalid date format, should be YYYY-MM-DD");
            },
        }
        assert(out@ =~= error_text_spec(*self));
        out
    }
}

} // verus!
