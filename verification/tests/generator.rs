use sqlx_crud::model::{
    build_sql_queries, build_sqlx_crud_impl, build_static_model_schema, column_names, db_type,
    has_attr_named, id_column_ident, type_of_field_named, AttrInput, Database,
    DeriveError, FieldInput, StructInput,
};
use sqlx_crud::naming::{BuildEnv, CratePath};

fn attr(ident: &str) -> AttrInput {
    AttrInput { ident: Some(ident.to_string()), str_value: None }
}

fn attr_value(ident: &str, value: &str) -> AttrInput {
    AttrInput { ident: Some(ident.to_string()), str_value: Some(value.to_string()) }
}

fn field(name: &str, ty: &str, attrs: Vec<AttrInput>) -> FieldInput {
    FieldInput { name: name.to_string(), ty: ty.to_string(), attrs }
}

fn user_input() -> StructInput {
    StructInput {
        name: "User".to_string(),
        attrs: vec![],
        fields: vec![field("user_id", "i32", vec![]), field("name", "String", vec![])],
    }
}

fn outside_env() -> BuildEnv {
    BuildEnv { package_name: "my-app".to_string(), variable_names: vec!["HOME".to_string()] }
}

fn count_marks(s: &str) -> usize {
    s.chars().filter(|c| *c == '?').count()
}

#[test]
fn id_defaults_to_first_field() {
    let input = user_input();
    assert_eq!(id_column_ident(&input.fields), 0);
}

#[test]
fn id_attribute_selects_field() {
    let fields = vec![
        field("name", "String", vec![]),
        field("uuid", "String", vec![attr("id")]),
        field("other", "i64", vec![attr("id")]),
    ];
    assert_eq!(id_column_ident(&fields), 1);
}

#[test]
fn id_attribute_among_other_attributes() {
    let fields = vec![
        field("a", "i32", vec![attr("serde")]),
        field("b", "i32", vec![attr("serde"), attr("id")]),
    ];
    assert_eq!(id_column_ident(&fields), 1);
    assert!(has_attr_named(&fields[1].attrs, "id"));
    assert!(!has_attr_named(&fields[0].attrs, "id"));
}

#[test]
fn attribute_without_single_ident_is_not_id() {
    let fields = vec![
        field("a", "i32", vec![]),
        field("b", "i32", vec![AttrInput { ident: None, str_value: None }]),
    ];
    assert_eq!(id_column_ident(&fields), 0);
}

#[test]
fn database_defaults_to_sqlite() {
    assert!(matches!(db_type(&vec![]), Ok(Database::Sqlite)));
    assert!(matches!(db_type(&vec![attr("derive")]), Ok(Database::Sqlite)));
}

#[test]
fn database_names() {
    for (name, db) in [
        ("Any", Database::Any),
        ("Mssql", Database::Mssql),
        ("MySql", Database::MySql),
        ("Postgres", Database::Postgres),
        ("Sqlite", Database::Sqlite),
    ] {
        match db_type(&vec![attr_value("database", name)]) {
            Ok(d) => assert_eq!(d, db),
            Err(_) => panic!("known database refused"),
        }
    }
}

#[test]
fn unknown_database_is_refused() {
    match db_type(&vec![attr_value("database", "Oracle")]) {
        Err(DeriveError::UnknownDatabase(v)) => assert_eq!(v, "Oracle"),
        _ => panic!("unknown database accepted"),
    }
    // The match is exact: case matters.
    assert!(matches!(
        db_type(&vec![attr_value("database", "postgres")]),
        Err(DeriveError::UnknownDatabase(_))
    ));
}

#[test]
fn first_database_attribute_decides() {
    let attrs = vec![attr("database"), attr_value("database", "Postgres")];
    assert!(matches!(db_type(&attrs), Ok(Database::Sqlite)));
    let attrs = vec![attr_value("database", "MySql"), attr_value("database", "Oracle")];
    assert!(matches!(db_type(&attrs), Ok(Database::MySql)));
}

#[test]
fn columns_follow_field_order() {
    let input = user_input();
    assert_eq!(column_names(&input.fields), vec!["user_id".to_string(), "name".to_string()]);
}

#[test]
fn id_type_is_that_of_id_field() {
    let fields = vec![field("name", "String", vec![]), field("id", "uuid::Uuid", vec![])];
    assert_eq!(type_of_field_named(&fields, &"id".to_string()), "uuid::Uuid");
}

#[test]
fn sql_queries_of_user() {
    let q = build_sql_queries(&user_input());
    assert_eq!(q.select_sql, "SELECT user_id, name FROM users");
    assert_eq!(q.select_by_id_sql, "SELECT user_id, name FROM users WHERE user_id = ? LIMIT 1");
    assert_eq!(q.insert_sql, "INSERT INTO users VALUES (?, ?)");
    assert_eq!(q.update_by_id_sql, "UPDATE users SET name = ? WHERE user_id = ?");
    assert_eq!(q.delete_by_id_sql, "DELETE FROM users WHERE user_id = ?");
}

#[test]
fn sql_queries_with_marked_id() {
    let input = StructInput {
        name: "BlogPost".to_string(),
        attrs: vec![],
        fields: vec![
            field("title", "String", vec![]),
            field("post_id", "i64", vec![attr("id")]),
            field("body", "String", vec![]),
        ],
    };
    let q = build_sql_queries(&input);
    assert_eq!(q.select_sql, "SELECT title, post_id, body FROM blog_posts");
    assert_eq!(
        q.select_by_id_sql,
        "SELECT title, post_id, body FROM blog_posts WHERE post_id = ? LIMIT 1"
    );
    assert_eq!(q.insert_sql, "INSERT INTO blog_posts VALUES (?, ?, ?)");
    assert_eq!(q.update_by_id_sql, "UPDATE blog_posts SET title = ?, body = ? WHERE post_id = ?");
    assert_eq!(q.delete_by_id_sql, "DELETE FROM blog_posts WHERE post_id = ?");
}

#[test]
fn single_field_struct() {
    let input = StructInput {
        name: "Tag".to_string(),
        attrs: vec![],
        fields: vec![field("label", "String", vec![])],
    };
    let q = build_sql_queries(&input);
    assert_eq!(q.insert_sql, "INSERT INTO tags VALUES (?)");
    assert_eq!(q.update_by_id_sql, "UPDATE tags SET  WHERE label = ?");
}

#[test]
fn static_model_schema_of_user() {
    let s = build_static_model_schema(&user_input());
    assert_eq!(s.model_schema_ident, "USER_SCHEMA");
    assert_eq!(s.table_name, "users");
    assert_eq!(s.id_column, "user_id");
    assert_eq!(s.columns, vec!["user_id".to_string(), "name".to_string()]);
    assert_eq!(s.queries.select_sql, "SELECT user_id, name FROM users");
}

#[test]
fn crud_impl_binds() {
    let input = StructInput {
        name: "Task".to_string(),
        attrs: vec![attr_value("database", "Postgres")],
        fields: vec![
            field("task", "String", vec![]),
            field("id", "i64", vec![attr("id")]),
            field("done", "bool", vec![]),
        ],
    };
    let c = match build_sqlx_crud_impl(&input) {
        Ok(c) => c,
        Err(_) => panic!("refused"),
    };
    assert_eq!(c.model_schema_ident, "TASK_SCHEMA");
    assert_eq!(c.id_field, "id");
    assert_eq!(c.id_type, "i64");
    assert_eq!(c.insert_binds, vec!["task".to_string(), "id".to_string(), "done".to_string()]);
    assert_eq!(c.update_binds, vec!["task".to_string(), "done".to_string(), "id".to_string()]);
    assert_eq!(c.database, Database::Postgres);
}

#[test]
fn crud_impl_unknown_database() {
    let mut input = user_input();
    input.attrs = vec![attr_value("database", "Db2")];
    assert!(matches!(build_sqlx_crud_impl(&input), Err(DeriveError::UnknownDatabase(_))));
}

#[test]
fn derive_without_fields() {
    let input = StructInput { name: "Empty".to_string(), attrs: vec![], fields: vec![] };
    assert!(matches!(sqlx_crud::model::derive(&input, &outside_env()), Err(DeriveError::NoFields)));
    let mut input = input;
    input.attrs = vec![attr_value("database", "Db2")];
    assert!(matches!(sqlx_crud::model::derive(&input, &outside_env()), Err(DeriveError::NoFields)));
}

#[test]
fn derive_user() {
    let out = match sqlx_crud::model::derive(&user_input(), &outside_env()) {
        Ok(o) => o,
        Err(_) => panic!("refused"),
    };
    assert_eq!(out.crate_path, CratePath::SqlxCrud);
    assert_eq!(out.schema.table_name, "users");
    assert_eq!(out.crud_impl.id_type, "i32");
    assert_eq!(out.crud_impl.database, Database::Sqlite);
}

#[test]
fn derive_inside_library() {
    let env = BuildEnv { package_name: "sqlx-crud".to_string(), variable_names: vec![] };
    let out = match sqlx_crud::model::derive(&user_input(), &env) {
        Ok(o) => o,
        Err(_) => panic!("refused"),
    };
    assert_eq!(out.crate_path, CratePath::Crate);
}

#[test]
fn placeholders_match_binds() {
    let input = StructInput {
        name: "Order".to_string(),
        attrs: vec![],
        fields: vec![
            field("a", "i32", vec![]),
            field("b", "i32", vec![]),
            field("c", "i32", vec![attr("id")]),
            field("d", "i32", vec![]),
        ],
    };
    let out = match sqlx_crud::model::derive(&input, &outside_env()) {
        Ok(o) => o,
        Err(_) => panic!("refused"),
    };
    let q = &out.schema.queries;
    assert_eq!(count_marks(&q.select_sql), 0);
    assert_eq!(count_marks(&q.select_by_id_sql), 1);
    assert_eq!(count_marks(&q.insert_sql), out.crud_impl.insert_binds.len());
    assert_eq!(count_marks(&q.update_by_id_sql), out.crud_impl.update_binds.len());
    assert_eq!(count_marks(&q.delete_by_id_sql), 1);
    assert_eq!(out.crud_impl.update_binds.len(), out.crud_impl.insert_binds.len());
    assert_eq!(out.crud_impl.update_binds.last().map(|s| s.as_str()), Some("c"));
}
