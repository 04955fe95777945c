use sqlx_crud::naming::{crate_name, model_schema_ident, table_name, text_eq, BuildEnv, CratePath};

#[test]
fn table_names() {
    assert_eq!(table_name("User"), "users");
    assert_eq!(table_name("Task"), "tasks");
    assert_eq!(table_name("BlogPost"), "blog_posts");
}

#[test]
fn model_schema_idents() {
    assert_eq!(model_schema_ident("User"), "USER_SCHEMA");
    assert_eq!(model_schema_ident("BlogPost"), "BLOG_POST_SCHEMA");
}

#[test]
fn texts_compare() {
    assert!(text_eq(&"abc".to_string(), "abc"));
    assert!(!text_eq(&"abc".to_string(), "abd"));
}

fn env(package: &str, vars: &[&str]) -> BuildEnv {
    BuildEnv {
        package_name: package.to_string(),
        variable_names: vars.iter().map(|v| v.to_string()).collect(),
    }
}

#[test]
fn crate_paths() {
    assert_eq!(crate_name(&env("sqlx-crud", &["PATH"])), CratePath::Crate);
    assert_eq!(crate_name(&env("my-app", &[])), CratePath::SqlxCrud);
    assert_eq!(
        crate_name(&env("sqlx-crud", &["PATH", "UNSTABLE_RUSTDOC_TEST_LINE"])),
        CratePath::SqlxCrud
    );
    assert_eq!(
        crate_name(&env("sqlx-crud", &["UNSTABLE_RUSTDOC_TEST_PATH"])),
        CratePath::SqlxCrud
    );
    assert_eq!(crate_name(&env("sqlx_crud", &[])), CratePath::SqlxCrud);
}
