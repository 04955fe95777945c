use sqlx_crud::doctest::{user_schema, User};
use sqlx_crud::model::{FieldInput, StructInput};
use sqlx_crud::naming::BuildEnv;
use sqlx_crud::sql::{columns_without, push_joined, sql_queries_for};
use sqlx_crud::task_api::{task_schema, Task};
use sqlx_crud::Schema;

#[test]
fn user_schema_metadata() {
    let m = user_schema();
    assert_eq!(m.table_name, "users");
    assert_eq!(m.id_column, "user_id");
    assert_eq!(m.columns, ["user_id", "name"]);
    assert_eq!(m.insert_sql, "INSERT INTO users VALUES (?, ?)");
}

#[test]
fn user_schema_trait() {
    let u = User { user_id: 7, name: "seven".to_string() };
    assert_eq!(u.id(), 7);
    assert_eq!(u.name, "seven");
    assert_eq!(<User as Schema>::table_name(), "users");
    assert_eq!(<User as Schema>::id_column(), "user_id");
    assert_eq!(<User as Schema>::columns(), &["user_id", "name"]);
    assert_eq!(<User as Schema>::select_sql(), "SELECT user_id, name FROM users");
    assert_eq!(
        <User as Schema>::select_by_id_sql(),
        "SELECT user_id, name FROM users WHERE user_id = ? LIMIT 1"
    );
    assert_eq!(<User as Schema>::update_by_id_sql(), "UPDATE users SET name = ? WHERE user_id = ?");
    assert_eq!(<User as Schema>::delete_by_id_sql(), "DELETE FROM users WHERE user_id = ?");
}

#[test]
fn user_schema_agrees_with_generator() {
    let input = StructInput {
        name: "User".to_string(),
        attrs: vec![],
        fields: vec![
            FieldInput { name: "user_id".to_string(), ty: "i32".to_string(), attrs: vec![] },
            FieldInput { name: "name".to_string(), ty: "String".to_string(), attrs: vec![] },
        ],
    };
    let env = BuildEnv { package_name: "app".to_string(), variable_names: vec![] };
    let out = match sqlx_crud::model::derive(&input, &env) {
        Ok(o) => o,
        Err(_) => panic!("refused"),
    };
    assert_eq!(out.schema.table_name, <User as Schema>::table_name());
    assert_eq!(out.schema.id_column, <User as Schema>::id_column());
    assert_eq!(out.schema.columns, <User as Schema>::columns());
    assert_eq!(out.schema.queries.select_sql, <User as Schema>::select_sql());
    assert_eq!(out.schema.queries.select_by_id_sql, <User as Schema>::select_by_id_sql());
    assert_eq!(out.schema.queries.insert_sql, <User as Schema>::insert_sql());
    assert_eq!(out.schema.queries.update_by_id_sql, <User as Schema>::update_by_id_sql());
    assert_eq!(out.schema.queries.delete_by_id_sql, <User as Schema>::delete_by_id_sql());
}

#[test]
fn task_schema_trait() {
    let t = Task { id: 5, task: "t".to_string() };
    assert_eq!(t.id(), 5);
    assert_eq!(task_schema().columns, ["id", "task"]);
    assert_eq!(<Task as Schema>::table_name(), "tasks");
    assert_eq!(<Task as Schema>::id_column(), "id");
    assert_eq!(<Task as Schema>::columns(), &["id", "task"]);
    assert_eq!(<Task as Schema>::select_sql(), "SELECT id, task FROM tasks");
    assert_eq!(<Task as Schema>::select_by_id_sql(), "SELECT id, task FROM tasks WHERE id = ? LIMIT 1");
    assert_eq!(<Task as Schema>::insert_sql(), "INSERT INTO tasks VALUES (?, ?)");
    assert_eq!(<Task as Schema>::update_by_id_sql(), "UPDATE tasks SET task = ? WHERE id = ?");
    assert_eq!(<Task as Schema>::delete_by_id_sql(), "DELETE FROM tasks WHERE id = ?");
}

#[test]
fn joining() {
    let mut s = "(".to_string();
    push_joined(&mut s, &vec!["a".to_string(), "b".to_string(), "c".to_string()], ", ");
    assert_eq!(s, "(a, b, c");
    let mut e = String::new();
    push_joined(&mut e, &vec![], ", ");
    assert_eq!(e, "");
}

#[test]
fn removing_id_column() {
    let cols = vec!["x".to_string(), "id".to_string(), "y".to_string()];
    assert_eq!(columns_without(&cols, &"id".to_string()), vec!["x".to_string(), "y".to_string()]);
    assert_eq!(columns_without(&cols, &"z".to_string()), cols);
}

#[test]
fn queries_for_table_without_columns() {
    let q = sql_queries_for("t", &vec![], &"id".to_string());
    assert_eq!(q.select_sql, "SELECT  FROM t");
    assert_eq!(q.insert_sql, "INSERT INTO t VALUES ()");
    assert_eq!(q.update_by_id_sql, "UPDATE t SET  WHERE id = ?");
}
