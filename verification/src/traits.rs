use vstd::prelude::*;

verus! {

/// The schema of a struct that stands for a table: the table's name, its id column and
/// columns, and the statements that select, insert, update and delete its rows. The code
/// generator implements it for a struct by reading a [`crate::schema::Metadata`] whose
/// statements agree with its table and columns (see
/// [`crate::schema::Metadata::is_consistent`]).
pub trait Schema {
    type Id: Send;

    fn table_name() -> &'static str;

    /// The value of the id column of this row.
    fn id(&self) -> Self::Id;

    fn id_column() -> &'static str;

    fn columns() -> &'static [&'static str];

    fn select_sql() -> &'static str;

    fn select_by_id_sql() -> &'static str;

    fn insert_sql() -> &'static str;

    fn update_by_id_sql() -> &'static str;

    fn delete_by_id_sql() -> &'static str;
}

} // verus!
