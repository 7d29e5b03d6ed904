//! The parsed command surface: what the surrounding program hands the
//! library after reading the command line.

use vstd::prelude::*;
use crate::date::{Date, valid_date};
use crate::render::{listing_spec, pending_spec};
use crate::types::{Rem, TodoError, create_spec, toggle_done_spec, toggle_safe};

verus! {

/// A parsed invocation: at most one command; none means "list pending".
#[derive(Debug)]
pub struct Cli {
    pub command: Option<Commands>,
}

/// The commands the store understands.
#[derive(Debug)]
pub enum Commands {
    /// Add a new todo.
    New(NewTodoParams),
    /// Toggle the done state of a todo by its 1-based index.
    Toggle { index: usize },
    /// List pending todos (the default).
    Pending,
    /// List all todos.
    All,
}

/// The parameters of a new task: its text, an optional due date in
/// `YYYY-MM-DD` form, and whether it is a recurring (daily) task.
#[derive(Debug, Clone)]
pub struct NewTodoParams {
    pub content: String,
    pub due: Option<String>,
    pub daily: bool,
}

impl Cli {
    /// Applies the parsed command to the store on `today` and yields the
    /// text to print, if the command produces any: `New` and `Toggle`
    /// change the store and print nothing, `All` lists every task,
    /// `Pending` (or no command) lists the pending ones.
    pub fn handle_cli(&self, rem: &mut Rem, today: Date) -> (r: Result<Option<String>, TodoError>)
        requires
            old(rem).wf(),
            valid_date(today),
            self.command matches Some(Commands::Toggle { index }) ==> (1 <= index <= old(
                rem,
            ).todos@.len() ==> toggle_safe(old(rem).todos@[index - 1], today)),
        ensures
            final(rem).wf(),
            match self.command {
                Some(Commands::New(params)) => match create_spec(params) {
                    Ok(t) => r matches Ok(None) && final(rem).todos@ == old(rem).todos@.push(t),
                    Err(e) => r matches Err(e2) && e2 == e && *final(rem) == *old(rem),
                },
                Some(Commands::Toggle { index }) => if 1 <= index <= old(rem).todos@.len() {
                    &&& r matches Ok(None)
                    &&& final(rem).todos@ == old(rem).todos@.update(
                        index - 1,
                        toggle_done_spec(old(rem).todos@[index - 1], today),
                    )
                } else {
                    &&& r matches Err(e) && e == (TodoError::InvalidIndex {
                        min: 1,
                        max: old(rem).todos@.len() as usize,
                    })
                    &&& *final(rem) == *old(rem)
                },
                Some(Commands::All) => *final(rem) == *old(rem) && (r matches Ok(Some(text))
                    && text@ == listing_spec(old(rem).todos@, today)),
                Some(Commands::Pending) => *final(rem) == *old(rem) && (r matches Ok(Some(text))
                    && text@ == pending_spec(old(rem).todos@, today)),
                None => *final(rem) == *old(rem) && (r matches Ok(Some(text)) && text@
                    == pending_spec(old(rem).todos@, today)),
            },
    {
        match &self.command {
            Some(Commands::New(params)) => match rem.add_todo(params) {
                Ok(()) => Ok(None),
                Err(e) => Err(e),
            },
            Some(Commands::Toggle { index }) => match rem.toggle_todo(*index, today) {
                Ok(()) => Ok(None),
                Err(e) => Err(e),
            },
            Some(Commands::All) => Ok(Some(rem.listing(today))),
            Some(Commands::Pending) => Ok(Some(rem.pending_text(today))),
            None => Ok(Some(rem.pending_text(today))),
        }
    }
}

} // verus!
