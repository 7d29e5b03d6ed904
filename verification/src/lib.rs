//! A small personal task tracker.
//!
//! The library holds the task state model and its date-driven transition
//! logic: simple and scheduled tasks with a binary completion flag, and
//! recurring (daily) tasks tracked by a consecutive-day completion streak
//! with one level of same-day undo.  All operations take the current
//! calendar date as an explicit argument, so every run on a fixed date is
//! exactly reproducible.  Argument parsing, file discovery and JSON
//! persistence are left to the surrounding program.

pub mod cli;
pub mod date;
pub mod laws;
pub mod render;
pub mod text;
pub mod types;
