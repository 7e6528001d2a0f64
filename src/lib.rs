//! Shared state of a terminal client for a hosted task service: the task
//! store, the unified "today" view, selection, search, the queue of local
//! completion changes waiting to be pushed, and the decisions of the
//! interaction loop.

pub mod calendar;
pub mod clock;
pub mod display;
pub mod input;
pub mod seqs;
pub mod state;
pub mod sync;
pub mod task;
pub mod text;
pub mod today;
