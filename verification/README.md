# sqlx-crud

Create, read, update and delete support for Rust structs that stand for a table of a SQL
database.

- `src/` is verified with Verus: the shape of a struct (`model::StructInput`) is turned into
  its schema metadata and statements (`model::derive`); `sql` holds the statement texts and the
  proofs that each statement has exactly as many `?` placeholders as values are bound to it;
  `schema::Metadata` and `traits::Schema` are the metadata and the interface that reads it;
  `doctest::User` and `task_api::Task` are example tables whose metadata is proved consistent.
- `app/` holds what runs against a database or reads and writes Rust tokens: the `Crud` trait,
  the token side of the derive, the documentation's database set-up and an example web service.
- `tests/` runs the library on concrete values.
