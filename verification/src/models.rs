//! The records that the service stores and exchanges.

pub mod course;
pub mod teacher;
