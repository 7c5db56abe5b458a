//! Debounced, change-triggered supervision of a restartable task.
//!
//! The crate holds the decisions of a watcher that restarts a task whenever
//! the files it depends on change: which notifications count, when a burst of
//! them has settled into one change, and what the supervisor does next. The
//! caller owns the clock, the notification channel and the task itself, and
//! hands every observation to this crate as a plain value.

pub mod burst;
pub mod course;
pub mod debounce;
pub mod error;
pub mod event;
pub mod supervisor;
pub mod wait;
pub mod watch_set;
