//! The operations on the store, one module for each entity.
//!
//! An operation begins with a function that returns its first state. A
//! state holds the statement to run; its `resume` or `finish` takes the
//! store's reply and gives the next state or the result.

pub mod course;
pub mod course_runs;
pub mod teacher;
pub mod teacher_runs;
