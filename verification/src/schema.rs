use vstd::prelude::*;

use crate::sql::{
    delete_by_id_sql_text, insert_sql_text, select_by_id_sql_text, select_sql_text,
    update_by_id_sql_text,
};

verus! {

/// The schema metadata of a struct that stands for a table: the table, its id column, its
/// `C` columns in field order, and the statements that operate on it.
pub struct Metadata<'s, const C: usize> {
    pub table_name: &'s str,
    pub id_column: &'s str,
    pub columns: [&'s str; C],
    pub select_sql: &'s str,
    pub select_by_id_sql: &'s str,
    pub insert_sql: &'s str,
    pub update_by_id_sql: &'s str,
    pub delete_by_id_sql: &'s str,
}

impl<'s, const C: usize> Metadata<'s, C> {
    /// The column names, as text.
    pub open spec fn column_names(&self) -> Seq<Seq<char>> {
        self.columns@.map_values(|c: &'s str| c@)
    }

    /// The id column is one of the columns, and each statement is the one of this table, its
    /// columns and its id column.
    pub open spec fn is_consistent(&self) -> bool {
        let table = self.table_name@;
        let columns = self.column_names();
        let id = self.id_column@;
        &&& columns.contains(id)
        &&& self.select_sql@ == select_sql_text(table, columns)
        &&& self.select_by_id_sql@ == select_by_id_sql_text(table, columns, id)
        &&& self.insert_sql@ == insert_sql_text(table, columns)
        &&& self.update_by_id_sql@ == update_by_id_sql_text(table, columns, id)
        &&& self.delete_by_id_sql@ == delete_by_id_sql_text(table, id)
    }
}

} // verus!
