use vstd::prelude::*;

use crate::schema::Metadata;
use crate::sql::{
    delete_by_id_sql_text, insert_sql_text, lemma_two_column_statements, select_by_id_sql_text,
    select_sql_text, update_by_id_sql_text,
};
use crate::traits::Schema;

verus! {

/// A row of the `users` table: the struct the documentation's examples use.
pub struct User {
    pub user_id: i32,
    pub name: String,
}

/// The columns of `users`, as text.
pub open spec fn user_columns() -> Seq<Seq<char>> {
    seq!["user_id"@, "name"@]
}

/// The schema metadata of `User`, as the code generator writes it for that struct.
pub fn user_schema() -> (m: Metadata<'static, 2>)
    ensures
        m.table_name@ == "users"@,
        m.id_column@ == "user_id"@,
        m.column_names() == user_columns(),
        m.select_sql@ == "SELECT user_id, name FROM users"@,
        m.select_by_id_sql@ == "SELECT user_id, name FROM users WHERE user_id = ? LIMIT 1"@,
        m.insert_sql@ == "INSERT INTO users VALUES (?, ?)"@,
        m.update_by_id_sql@ == "UPDATE users SET name = ? WHERE user_id = ?"@,
        m.delete_by_id_sql@ == "DELETE FROM users WHERE user_id = ?"@,
        m.is_consistent(),
{
    let m = Metadata {
        table_name: "users",
        id_column: "user_id",
        columns: ["user_id", "name"],
        select_sql: "SELECT user_id, name FROM users",
        select_by_id_sql: "SELECT user_id, name FROM users WHERE user_id = ? LIMIT 1",
        insert_sql: "INSERT INTO users VALUES (?, ?)",
        update_by_id_sql: "UPDATE users SET name = ? WHERE user_id = ?",
        delete_by_id_sql: "DELETE FROM users WHERE user_id = ?",
    };
    proof {
        reveal_strlit("users");
        reveal_strlit("user_id");
        reveal_strlit("name");
        reveal_strlit("SELECT user_id, name FROM users");
        reveal_strlit("SELECT user_id, name FROM users WHERE user_id = ? LIMIT 1");
        reveal_strlit("INSERT INTO users VALUES (?, ?)");
        reveal_strlit("UPDATE users SET name = ? WHERE user_id = ?");
        reveal_strlit("DELETE FROM users WHERE user_id = ?");
        reveal_strlit("SELECT ");
        reveal_strlit(", ");
        reveal_strlit(" FROM ");
        reveal_strlit(" WHERE ");
        reveal_strlit(" = ? LIMIT 1");
        reveal_strlit("?");
        reveal_strlit("INSERT INTO ");
        reveal_strlit(" VALUES (");
        reveal_strlit(")");
        reveal_strlit(" = ?");
        reveal_strlit("UPDATE ");
        reveal_strlit(" SET ");
        reveal_strlit("DELETE FROM ");
        let cols = user_columns();
        assert(m.column_names() =~= cols);
        assert("name"@.len() != "user_id"@.len());
        lemma_two_column_statements("users"@, "user_id"@, "name"@);
        assert(m.select_sql@ =~= select_sql_text("users"@, cols));
        assert(m.select_by_id_sql@ =~= select_by_id_sql_text("users"@, cols, "user_id"@));
        assert(m.insert_sql@ =~= insert_sql_text("users"@, cols));
        assert(m.update_by_id_sql@ =~= update_by_id_sql_text("users"@, cols, "user_id"@));
        assert(m.delete_by_id_sql@ =~= delete_by_id_sql_text("users"@, "user_id"@));
        assert(cols[0] == "user_id"@);
        assert(cols.contains("user_id"@));
    }
    m
}


impl Schema for User {
    type Id = i32;

    fn table_name() -> (r: &'static str)
        ensures
            r@ == "users"@,
    {
        user_schema().table_name
    }

    fn id(&self) -> (r: i32)
        ensures
            r == self.user_id,
    {
        self.user_id
    }

    fn id_column() -> (r: &'static str)
        ensures
            r@ == "user_id"@,
    {
        user_schema().id_column
    }

    fn columns() -> (r: &'static [&'static str])
        ensures
            r@.len() == 2,
            r@[0]@ == "user_id"@,
            r@[1]@ == "name"@,
    {
        &["user_id", "name"]
    }

    fn select_sql() -> (r: &'static str)
        ensures
            r@ == "SELECT user_id, name FROM users"@,
    {
        user_schema().select_sql
    }

    fn select_by_id_sql() -> (r: &'static str)
        ensures
            r@ == "SELECT user_id, name FROM users WHERE user_id = ? LIMIT 1"@,
    {
        user_schema().select_by_id_sql
    }

    fn insert_sql() -> (r: &'static str)
        ensures
            r@ == "INSERT INTO users VALUES (?, ?)"@,
    {
        user_schema().insert_sql
    }

    fn update_by_id_sql() -> (r: &'static str)
        ensures
            r@ == "UPDATE users SET name = ? WHERE user_id = ?"@,
    {
        user_schema().update_by_id_sql
    }

    fn delete_by_id_sql() -> (r: &'static str)
        ensures
            r@ == "DELETE FROM users WHERE user_id = ?"@,
    {
        user_schema().delete_by_id_sql
    }
}

} // verus!
