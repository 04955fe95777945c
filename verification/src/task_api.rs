use vstd::prelude::*;

use crate::schema::Metadata;
use crate::sql::{
    delete_by_id_sql_text, insert_sql_text, lemma_two_column_statements, select_by_id_sql_text,
    select_sql_text, update_by_id_sql_text,
};
use crate::traits::Schema;

verus! {

/// A row of the `tasks` table served by the example web service.
pub struct Task {
    pub id: i64,
    pub task: String,
}

/// HTTP status 200.
pub const OK: u16 = 200u16;

/// HTTP status 404.
pub const NOT_FOUND: u16 = 404u16;

/// HTTP status 406.
pub const NOT_ACCEPTABLE: u16 = 406u16;

/// HTTP status 500.
pub const INTERNAL_SERVER_ERROR: u16 = 500u16;

/// What a query for one row by its id came back with.
#[derive(Clone, Copy, Debug, PartialEq, Eq, Structural)]
pub enum Fetched {
    Found,
    Missing,
    Failed,
}

/// The status of a response to a statement that either succeeded or failed: 200 or 500.
pub fn outcome_status(succeeded: bool) -> (r: u16)
    ensures
        r == if succeeded { OK } else { INTERNAL_SERVER_ERROR },
{
    if succeeded {
        OK
    } else {
        INTERNAL_SERVER_ERROR
    }
}

/// The status of a response to `GET /tasks/:id`: 200 with the task, 404 where there is none,
/// 500 where the query failed.
pub fn task_status(fetched: Fetched) -> (r: u16)
    ensures
        fetched == Fetched::Found ==> r == OK,
        fetched == Fetched::Missing ==> r == NOT_FOUND,
        fetched == Fetched::Failed ==> r == INTERNAL_SERVER_ERROR,
{
    match fetched {
        Fetched::Found => OK,
        Fetched::Missing => NOT_FOUND,
        Fetched::Failed => INTERNAL_SERVER_ERROR,
    }
}

/// What `PUT /tasks/:id` does once the row with that id has been looked up.
pub enum UpdatePlan {
    /// Store the task held here, which carries the id from the path.
    Update(Task),
    /// Answer with this status and leave the table as it is.
    Reject(u16),
}

/// The step of `PUT /tasks/:id` after the lookup: where the row exists, the task sent is
/// stored under the id of the path, whatever id it carried; otherwise the request is refused
/// with 406.
pub fn update_task_plan(task_id: i64, fetched: Fetched, task: Task) -> (r: UpdatePlan)
    ensures
        fetched == Fetched::Found ==> (r matches UpdatePlan::Update(t) && t.id == task_id
            && t.task@ == task.task@),
        fetched != Fetched::Found ==> (r matches UpdatePlan::Reject(s) && s == NOT_ACCEPTABLE),
{
    match fetched {
        Fetched::Found => {
            let mut task = task;
            task.id = task_id;
            UpdatePlan::Update(task)
        },
        _ => UpdatePlan::Reject(NOT_ACCEPTABLE),
    }
}

/// The columns of `tasks`, as text.
pub open spec fn task_columns() -> Seq<Seq<char>> {
    seq!["id"@, "task"@]
}

/// The schema metadata of `Task`, as the code generator writes it for that struct.
pub fn task_schema() -> (m: Metadata<'static, 2>)
    ensures
        m.table_name@ == "tasks"@,
        m.id_column@ == "id"@,
        m.column_names() == task_columns(),
        m.select_sql@ == "SELECT id, task FROM tasks"@,
        m.select_by_id_sql@ == "SELECT id, task FROM tasks WHERE id = ? LIMIT 1"@,
        m.insert_sql@ == "INSERT INTO tasks VALUES (?, ?)"@,
        m.update_by_id_sql@ == "UPDATE tasks SET task = ? WHERE id = ?"@,
        m.delete_by_id_sql@ == "DELETE FROM tasks WHERE id = ?"@,
        m.is_consistent(),
{
    let m = Metadata {
        table_name: "tasks",
        id_column: "id",
        columns: ["id", "task"],
        select_sql: "SELECT id, task FROM tasks",
        select_by_id_sql: "SELECT id, task FROM tasks WHERE id = ? LIMIT 1",
        insert_sql: "INSERT INTO tasks VALUES (?, ?)",
        update_by_id_sql: "UPDATE tasks SET task = ? WHERE id = ?",
        delete_by_id_sql: "DELETE FROM tasks WHERE id = ?",
    };
    proof {
        reveal_strlit("tasks");
        reveal_strlit("id");
        reveal_strlit("task");
        reveal_strlit("SELECT id, task FROM tasks");
        reveal_strlit("SELECT id, task FROM tasks WHERE id = ? LIMIT 1");
        reveal_strlit("INSERT INTO tasks VALUES (?, ?)");
        reveal_strlit("UPDATE tasks SET task = ? WHERE id = ?");
        reveal_strlit("DELETE FROM tasks WHERE id = ?");
        reveal_strlit("SELECT ");
        reveal_strlit(", ");
        reveal_strlit(" FROM ");
        reveal_strlit(" WHERE ");
        reveal_strlit(" = ? LIMIT 1");
        reveal_strlit("?");
        reveal_strlit("INSERT INTO ");
        reveal_strlit(" VALUES (");
        reveal_strlit(")");
        reveal_strlit(" = ?");
        reveal_strlit("UPDATE ");
        reveal_strlit(" SET ");
        reveal_strlit("DELETE FROM ");
        let cols = task_columns();
        assert(m.column_names() =~= cols);
        assert("task"@.len() != "id"@.len());
        lemma_two_column_statements("tasks"@, "id"@, "task"@);
        assert(m.select_sql@ =~= select_sql_text("tasks"@, cols));
        assert(m.select_by_id_sql@ =~= select_by_id_sql_text("tasks"@, cols, "id"@));
        assert(m.insert_sql@ =~= insert_sql_text("tasks"@, cols));
        assert(m.update_by_id_sql@ =~= update_by_id_sql_text("tasks"@, cols, "id"@));
        assert(m.delete_by_id_sql@ =~= delete_by_id_sql_text("tasks"@, "id"@));
        assert(cols[0] == "id"@);
        assert(cols.contains("id"@));
    }
    m
}


impl Schema for Task {
    type Id = i64;

    fn table_name() -> (r: &'static str)
        ensures
            r@ == "tasks"@,
    {
        task_schema().table_name
    }

    fn id(&self) -> (r: i64)
        ensures
            r == self.id,
    {
        self.id
    }

    fn id_column() -> (r: &'static str)
        ensures
            r@ == "id"@,
    {
        task_schema().id_column
    }

    fn columns() -> (r: &'static [&'static str])
        ensures
            r@.len() == 2,
            r@[0]@ == "id"@,
            r@[1]@ == "task"@,
    {
        &["id", "task"]
    }

    fn select_sql() -> (r: &'static str)
        ensures
            r@ == "SELECT id, task FROM tasks"@,
    {
        task_schema().select_sql
    }

    fn select_by_id_sql() -> (r: &'static str)
        ensures
            r@ == "SELECT id, task FROM tasks WHERE id = ? LIMIT 1"@,
    {
        task_schema().select_by_id_sql
    }

    fn insert_sql() -> (r: &'static str)
        ensures
            r@ == "INSERT INTO tasks VALUES (?, ?)"@,
    {
        task_schema().insert_sql
    }

    fn update_by_id_sql() -> (r: &'static str)
        ensures
            r@ == "UPDATE tasks SET task = ? WHERE id = ?"@,
    {
        task_schema().update_by_id_sql
    }

    fn delete_by_id_sql() -> (r: &'static str)
        ensures
            r@ == "DELETE FROM tasks WHERE id = ?"@,
    {
        task_schema().delete_by_id_sql
    }
}

} // verus!
