//! Data access for teachers and their courses, as decisions over plain values.
//!
//! Every operation is a short exchange with a relational store: the library
//! says which statement to run next, the caller runs it and hands the store's
//! reply back, and the library decides what follows. The store itself is
//! described by a mathematical model of its two tables, against which the
//! operations are proved.

pub mod dbaccess;
pub mod error;
pub mod handlers;
pub mod models;
pub mod pages;
pub mod seq_facts;
pub mod store;
pub mod tables;
