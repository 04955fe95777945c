//! Create, read, update and delete support for structs that stand for a table of a SQL
//! database.
//!
//! The code generator ([`model::derive`]) reads a struct with named fields and produces its
//! schema metadata: the table name (the struct's name in table case), the id column (the
//! first field marked `#[id]`, or else the first field), the columns in field order and the
//! statements that select, insert, update and delete rows, together with the order in which
//! the fields are bound to those statements. [`traits::Schema`] is the interface through
//! which that metadata is read back.
pub mod doctest;
pub mod model;
pub mod naming;
pub mod schema;
pub mod sql;
pub mod task_api;
pub mod traits;

pub use traits::Schema;
