use vstd::prelude::*;

use crate::naming::{
    crate_name, crate_path_for, model_schema_ident, screaming_snake_case, table_case, table_name,
    text_eq, BuildEnv, CratePath,
};
use crate::sql::{
    columns_without, count_char, lemma_statement_placeholders, non_id_columns, none_contain,
    sql_queries_for, texts, SqlQueries,
};

verus! {

/// An attribute on a struct or a field, as far as the code generator reads it.
pub struct AttrInput {
    /// The attribute's path where that path is one identifier (`id` in `#[id]`).
    pub ident: Option<String>,
    /// The string value where the attribute has the form `name = "value"`.
    pub str_value: Option<String>,
}

/// A named field of the struct that the code is generated for.
pub struct FieldInput {
    pub name: String,
    /// The field's type, as source text.
    pub ty: String,
    pub attrs: Vec<AttrInput>,
}

/// A struct with named fields that the code is generated for.
pub struct StructInput {
    pub name: String,
    pub attrs: Vec<AttrInput>,
    pub fields: Vec<FieldInput>,
}

/// The database that the generated `Crud` implementation runs against.
#[derive(Clone, Copy, Debug, PartialEq, Eq, Structural)]
pub enum Database {
    Any,
    Mssql,
    MySql,
    Postgres,
    Sqlite,
}

/// Why no code can be generated for a struct.
#[derive(Debug)]
pub enum DeriveError {
    /// The struct has no field, so it has no id column.
    NoFields,
    /// `#[database = "..."]` names a database that is not supported.
    UnknownDatabase(String),
}

/// `attr` is the attribute `#[name ...]`.
pub open spec fn attr_is(attr: AttrInput, name: Seq<char>) -> bool {
    attr.ident matches Some(i) && i@ == name
}

/// Some attribute of `attrs` is `#[name ...]`.
pub open spec fn has_attr(attrs: Seq<AttrInput>, name: Seq<char>) -> bool {
    exists|k: int| 0 <= k < attrs.len() && attr_is(#[trigger] attrs[k], name)
}

/// `k` is the first attribute of `attrs` that is `#[name ...]`.
pub open spec fn is_first_attr(attrs: Seq<AttrInput>, name: Seq<char>, k: int) -> bool {
    &&& 0 <= k < attrs.len()
    &&& attr_is(attrs[k], name)
    &&& forall|j: int| 0 <= j < k ==> !attr_is(#[trigger] attrs[j], name)
}

/// The field is marked `#[id]`.
pub open spec fn is_id_field(field: FieldInput) -> bool {
    has_attr(field.attrs@, "id"@)
}

/// `i` is the first field marked `#[id]`.
pub open spec fn is_first_id_field(fields: Seq<FieldInput>, i: int) -> bool {
    &&& 0 <= i < fields.len()
    &&& is_id_field(fields[i])
    &&& forall|j: int| 0 <= j < i ==> !is_id_field(#[trigger] fields[j])
}

/// The index of the id field: the first field marked `#[id]`, or else the first field.
pub open spec fn id_field_index(fields: Seq<FieldInput>) -> int {
    if exists|i: int| is_first_id_field(fields, i) {
        choose|i: int| is_first_id_field(fields, i)
    } else {
        0
    }
}

/// The names of the fields, in order: the table's columns.
pub open spec fn field_names(fields: Seq<FieldInput>) -> Seq<Seq<char>> {
    fields.map_values(|f: FieldInput| f.name@)
}

/// The name of the id column.
pub open spec fn id_column_name(fields: Seq<FieldInput>) -> Seq<char> {
    fields[id_field_index(fields)].name@
}

/// `i` is the first field whose name is `name`.
pub open spec fn is_first_named(fields: Seq<FieldInput>, name: Seq<char>, i: int) -> bool {
    &&& 0 <= i < fields.len()
    &&& fields[i].name@ == name
    &&& forall|j: int| 0 <= j < i ==> (#[trigger] fields[j]).name@ != name
}

/// The type of the id: that of the first field named like the id column.
pub open spec fn id_type_of(fields: Seq<FieldInput>) -> Seq<char> {
    fields[choose|i: int| is_first_named(fields, id_column_name(fields), i)].ty@
}

/// The value of the first `#[database ...]` attribute where it has the form
/// `database = "..."`; none where the first such attribute has another form or there is none.
pub open spec fn database_attr(attrs: Seq<AttrInput>) -> Option<Seq<char>> {
    if exists|k: int| is_first_attr(attrs, "database"@, k) {
        match attrs[choose|k: int| is_first_attr(attrs, "database"@, k)].str_value {
            Some(v) => Some(v@),
            None => None,
        }
    } else {
        None
    }
}

/// The database a `#[database = "..."]` value names.
pub open spec fn database_named(value: Seq<char>) -> Option<Database> {
    if value == "Any"@ {
        Some(Database::Any)
    } else if value == "Mssql"@ {
        Some(Database::Mssql)
    } else if value == "MySql"@ {
        Some(Database::MySql)
    } else if value == "Postgres"@ {
        Some(Database::Postgres)
    } else if value == "Sqlite"@ {
        Some(Database::Sqlite)
    } else {
        None
    }
}

/// What the struct's attributes select: Sqlite without a `#[database = "..."]`, the named
/// database with one, an error where the name is unknown.
pub open spec fn database_result(attrs: Seq<AttrInput>, r: Result<Database, DeriveError>) -> bool {
    match database_attr(attrs) {
        None => r == Ok::<Database, DeriveError>(Database::Sqlite),
        Some(v) => match database_named(v) {
            Some(d) => r == Ok::<Database, DeriveError>(d),
            None => r matches Err(DeriveError::UnknownDatabase(s)) && s@ == v,
        },
    }
}

/// Whether some attribute of `attrs` is `#[name ...]`.
pub fn has_attr_named(attrs: &Vec<AttrInput>, name: &str) -> (r: bool)
    ensures
        r == has_attr(attrs@, name@),
{
    let n = attrs.len();
    let mut k: usize = 0;
    while k < n
        invariant
            0 <= k <= n,
            n == attrs@.len(),
            forall|j: int| 0 <= j < k ==> !attr_is(#[trigger] attrs@[j], name@),
        decreases n - k,
    {
        if let Some(i) = &attrs[k].ident {
            if text_eq(i, name) {
                assert(attr_is(attrs@[k as int], name@));
                return true;
            }
        }
        k = k + 1;
    }
    false
}

/// The index of the id field: the first field marked `#[id]`, or else the first field.
pub fn id_column_ident(fields: &Vec<FieldInput>) -> (i: usize)
    requires
        fields.len() > 0,
    ensures
        i == id_field_index(fields@),
        i < fields.len(),
{
    let n = fields.len();
    let mut k: usize = 0;
    while k < n
        invariant
            0 <= k <= n,
            n == fields@.len(),
            forall|j: int| 0 <= j < k ==> !is_id_field(#[trigger] fields@[j]),
        decreases n - k,
    {
        if has_attr_named(&fields[k].attrs, "id") {
            assert(is_first_id_field(fields@, k as int));
            let ghost c = choose|i: int| is_first_id_field(fields@, i);
            assert(c == k) by {
                if c < k {
                    assert(!is_id_field(fields@[c]));
                } else if c > k {
                    assert(!is_id_field(fields@[k as int]));
                }
            }
            return k;
        }
        k = k + 1;
    }
    assert(!exists|i: int| is_first_id_field(fields@, i)) by {
        if exists|i: int| is_first_id_field(fields@, i) {
            let c = choose|i: int| is_first_id_field(fields@, i);
            assert(!is_id_field(fields@[c]));
        }
    }
    0
}


/// The database named by a `#[database = "..."]` value, if it is one of those supported.
pub fn database_from_name(value: &String) -> (r: Option<Database>)
    ensures
        r == database_named(value@),
{
    if text_eq(value, "Any") {
        Some(Database::Any)
    } else if text_eq(value, "Mssql") {
        Some(Database::Mssql)
    } else if text_eq(value, "MySql") {
        Some(Database::MySql)
    } else if text_eq(value, "Postgres") {
        Some(Database::Postgres)
    } else if text_eq(value, "Sqlite") {
        Some(Database::Sqlite)
    } else {
        None
    }
}

/// The database that the struct's attributes select. The first `#[database ...]` attribute
/// decides: `database = "..."` must name a supported database; another form of it, or no such
/// attribute, selects Sqlite.
pub fn db_type(attrs: &Vec<AttrInput>) -> (r: Result<Database, DeriveError>)
    ensures
        database_result(attrs@, r),
{
    let n = attrs.len();
    let mut k: usize = 0;
    while k < n
        invariant
            0 <= k <= n,
            n == attrs@.len(),
            forall|j: int| 0 <= j < k ==> !attr_is(#[trigger] attrs@[j], "database"@),
        decreases n - k,
    {
        let found = match &attrs[k].ident {
            Some(i) => text_eq(i, "database"),
            None => false,
        };
        if found {
            assert(is_first_attr(attrs@, "database"@, k as int));
            let ghost c = choose|i: int| is_first_attr(attrs@, "database"@, i);
            assert(c == k) by {
                if c < k {
                    assert(!attr_is(attrs@[c], "database"@));
                } else if c > k {
                    assert(!attr_is(attrs@[k as int], "database"@));
                }
            }
            return match &attrs[k].str_value {
                Some(v) => match database_from_name(v) {
                    Some(d) => Ok(d),
                    None => Err(DeriveError::UnknownDatabase(v.clone())),
                },
                None => Ok(Database::Sqlite),
            };
        }
        k = k + 1;
    }
    assert(!exists|i: int| is_first_attr(attrs@, "database"@, i)) by {
        if exists|i: int| is_first_attr(attrs@, "database"@, i) {
            let c = choose|i: int| is_first_attr(attrs@, "database"@, i);
            assert(!attr_is(attrs@[c], "database"@));
        }
    }
    Ok(Database::Sqlite)
}

/// The names of the fields, in order.
pub fn column_names(fields: &Vec<FieldInput>) -> (r: Vec<String>)
    ensures
        texts(r@) == field_names(fields@),
{
    let mut r: Vec<String> = Vec::new();
    let n = fields.len();
    let mut i: usize = 0;
    while i < n
        invariant
            0 <= i <= n,
            n == fields@.len(),
            texts(r@) =~= field_names(fields@).take(i as int),
        decreases n - i,
    {
        r.push(fields[i].name.clone());
        assert(field_names(fields@).take(i + 1) =~= field_names(fields@).take(i as int).push(
            fields@[i as int].name@,
        ));
        i = i + 1;
    }
    assert(field_names(fields@).take(n as int) =~= field_names(fields@));
    r
}

/// The type of the first field named `name`, where some field is.
pub fn type_of_field_named(fields: &Vec<FieldInput>, name: &String) -> (r: String)
    requires
        exists|i: int| 0 <= i < fields.len() && (#[trigger] fields@[i]).name@ == name@,
    ensures
        r@ == fields@[choose|i: int| is_first_named(fields@, name@, i)].ty@,
{
    let n = fields.len();
    let mut k: usize = 0;
    while k < n
        invariant
            0 <= k <= n,
            n == fields@.len(),
            forall|j: int| 0 <= j < k ==> (#[trigger] fields@[j]).name@ != name@,
            exists|i: int| 0 <= i < fields.len() && (#[trigger] fields@[i]).name@ == name@,
        decreases n - k,
    {
        if fields[k].name == *name {
            assert(is_first_named(fields@, name@, k as int));
            let ghost c = choose|i: int| is_first_named(fields@, name@, i);
            assert(c == k) by {
                if c < k {
                    assert(fields@[c].name@ != name@);
                } else if c > k {
                    assert(fields@[k as int].name@ != name@);
                }
            }
            return fields[k].ty.clone();
        }
        k = k + 1;
    }
    assert(false);
    fields[0].ty.clone()
}

/// The statements of the struct's table, its columns being the struct's fields in order.
pub fn build_sql_queries(input: &StructInput) -> (r: SqlQueries)
    requires
        input.fields.len() > 0,
    ensures
        r.describe(
            table_case(input.name@),
            field_names(input.fields@),
            id_column_name(input.fields@),
        ),
{
    let table = table_name(input.name.as_str());
    let id = id_column_ident(&input.fields);
    let columns = column_names(&input.fields);
    sql_queries_for(table.as_str(), &columns, &input.fields[id].name)
}

/// The schema metadata generated for a struct: the static's name, the table's name, its id
/// column, its columns and its statements.
pub struct ModelSchema {
    pub model_schema_ident: String,
    pub table_name: String,
    pub id_column: String,
    pub columns: Vec<String>,
    pub queries: SqlQueries,
}

impl ModelSchema {
    /// This is the metadata generated for `input`.
    pub open spec fn describes(&self, input: StructInput) -> bool {
        let fields = input.fields@;
        &&& self.model_schema_ident@ == screaming_snake_case(input.name@) + "_SCHEMA"@
        &&& self.table_name@ == table_case(input.name@)
        &&& self.id_column@ == id_column_name(fields)
        &&& texts(self.columns@) == field_names(fields)
        &&& self.queries.describe(self.table_name@, texts(self.columns@), self.id_column@)
    }
}

/// The schema metadata of a struct with at least one field.
pub fn build_static_model_schema(input: &StructInput) -> (r: ModelSchema)
    requires
        input.fields.len() > 0,
    ensures
        r.describes(*input),
        texts(r.columns@).contains(r.id_column@),
{
    proof {
        lemma_id_field_in_range(input.fields@);
    }
    let model_schema_ident = model_schema_ident(input.name.as_str());
    let table_name = table_name(input.name.as_str());
    let id = id_column_ident(&input.fields);
    let id_column = input.fields[id].name.clone();
    let columns = column_names(&input.fields);
    let queries = build_sql_queries(input);
    ModelSchema { model_schema_ident, table_name, id_column, columns, queries }
}

/// What the generated `Schema` and `Crud` implementations are made of: the static they read,
/// the id field and its type, the fields bound to the insert and to the update statements, in
/// order, and the database.
pub struct CrudImpl {
    pub model_schema_ident: String,
    pub id_field: String,
    pub id_type: String,
    pub insert_binds: Vec<String>,
    pub update_binds: Vec<String>,
    pub database: Database,
}

impl CrudImpl {
    /// This is the implementation generated for `input`, without its database.
    pub open spec fn describes(&self, input: StructInput) -> bool {
        let fields = input.fields@;
        let id = id_column_name(fields);
        &&& self.model_schema_ident@ == screaming_snake_case(input.name@) + "_SCHEMA"@
        &&& self.id_field@ == id
        &&& self.id_type@ == id_type_of(fields)
        &&& texts(self.insert_binds@) == field_names(fields)
        &&& texts(self.update_binds@) == non_id_columns(field_names(fields), id).push(id)
    }
}

/// The database of a generated implementation, or the error in its place.
pub open spec fn crud_database(r: Result<CrudImpl, DeriveError>) -> Result<Database, DeriveError> {
    match r {
        Ok(c) => Ok(c.database),
        Err(e) => Err(e),
    }
}

/// The `Schema` and `Crud` implementations for a struct with at least one field, or the error
/// of its `#[database]` attribute.
pub fn build_sqlx_crud_impl(input: &StructInput) -> (r: Result<CrudImpl, DeriveError>)
    requires
        input.fields.len() > 0,
    ensures
        database_result(input.attrs@, crud_database(r)),
        r matches Ok(c) ==> c.describes(*input),
{
    let model_schema_ident = model_schema_ident(input.name.as_str());
    let id = id_column_ident(&input.fields);
    let id_field = input.fields[id].name.clone();
    let id_type = type_of_field_named(&input.fields, &id_field);
    let insert_binds = column_names(&input.fields);
    let mut update_binds = columns_without(&insert_binds, &id_field);
    let ghost rest = update_binds@;
    update_binds.push(id_field.clone());
    assert(texts(update_binds@) =~= texts(rest).push(id_field@));
    let database = db_type(&input.attrs);
    match database {
        Ok(database) => Ok(CrudImpl {
            model_schema_ident,
            id_field,
            id_type,
            insert_binds,
            update_binds,
            database,
        }),
        Err(e) => Err(e),
    }
}

/// The code generated for a struct: the path to this library, its schema metadata and its
/// `Schema` and `Crud` implementations.
pub struct DeriveOutput {
    pub crate_path: CratePath,
    pub schema: ModelSchema,
    pub crud_impl: CrudImpl,
}

/// The database of generated code, or the error in its place.
pub open spec fn output_database(r: Result<DeriveOutput, DeriveError>) -> Result<Database, DeriveError> {
    match r {
        Ok(o) => Ok(o.crud_impl.database),
        Err(e) => Err(e),
    }
}

/// Generates the code for `input` in the build environment `env`: `NoFields` for a struct
/// without fields, `UnknownDatabase` where its `#[database]` attribute names an unsupported
/// database, and otherwise the metadata and implementations that describe the struct.
pub fn derive(input: &StructInput, env: &BuildEnv) -> (r: Result<DeriveOutput, DeriveError>)
    ensures
        input.fields.len() == 0 ==> r matches Err(DeriveError::NoFields),
        input.fields.len() > 0 ==> database_result(
            input.attrs@,
            output_database(r),
        ),
        r matches Ok(o) ==> {
            &&& o.crate_path == crate_path_for(env.package_name@, env.variable_names@)
            &&& o.schema.describes(*input)
            &&& o.crud_impl.describes(*input)
            &&& o.crud_impl.model_schema_ident@ == o.schema.model_schema_ident@
            &&& o.crud_impl.id_field@ == o.schema.id_column@
            &&& texts(o.crud_impl.insert_binds@) == texts(o.schema.columns@)
        },
{
    let crate_path = crate_name(env);
    if input.fields.len() == 0 {
        return Err(DeriveError::NoFields);
    }
    let schema = build_static_model_schema(input);
    match build_sqlx_crud_impl(input) {
        Ok(crud_impl) => Ok(DeriveOutput { crate_path, schema, crud_impl }),
        Err(e) => Err(e),
    }
}


/// The id field of a struct with fields is one of its fields.
pub proof fn lemma_id_field_in_range(fields: Seq<FieldInput>)
    requires
        fields.len() > 0,
    ensures
        0 <= id_field_index(fields) < fields.len(),
        field_names(fields)[id_field_index(fields)] == id_column_name(fields),
{
}

/// Law: where no field name and not the table name contain `?`, the generated statements hold
/// exactly as many `?` placeholders as the generated implementation binds values to them: every
/// field to the insert, every field but the id and then the id to the update, the id alone to
/// the select and the delete by id.
pub proof fn lemma_binds_fill_placeholders(input: StructInput, schema: ModelSchema, crud: CrudImpl)
    requires
        input.fields.len() > 0,
        schema.describes(input),
        crud.describes(input),
        count_char(schema.table_name@, '?') == 0,
        none_contain(field_names(input.fields@), '?'),
    ensures
        count_char(schema.queries.select_sql@, '?') == 0,
        count_char(schema.queries.select_by_id_sql@, '?') == 1,
        count_char(schema.queries.insert_sql@, '?') == crud.insert_binds.len(),
        count_char(schema.queries.update_by_id_sql@, '?') == crud.update_binds.len(),
        count_char(schema.queries.delete_by_id_sql@, '?') == 1,
{
    let fields = input.fields@;
    lemma_id_field_in_range(fields);
    let names = field_names(fields);
    assert(count_char(names[id_field_index(fields)], '?') == 0);
    lemma_statement_placeholders(schema.table_name@, names, id_column_name(fields));
    assert(crud.insert_binds@.len() == texts(crud.insert_binds@).len());
    assert(crud.update_binds@.len() == texts(crud.update_binds@).len());
}

/// The names in `names` are pairwise distinct, as the field names of a struct are.
pub open spec fn distinct(names: Seq<Seq<char>>) -> bool {
    forall|i: int, j: int| 0 <= i < j < names.len() ==> names[i] != names[j]
}

proof fn lemma_non_id_len(columns: Seq<Seq<char>>, id_column: Seq<char>)
    requires
        distinct(columns),
    ensures
        columns.contains(id_column) ==> non_id_columns(columns, id_column).len() + 1 == columns.len(),
        !columns.contains(id_column) ==> non_id_columns(columns, id_column).len() == columns.len(),
    decreases columns.len(),
{
    if columns.len() > 0 {
        let rest = columns.drop_last();
        assert(distinct(rest));
        lemma_non_id_len(rest, id_column);
        if columns.last() == id_column {
            assert(!rest.contains(id_column)) by {
                if rest.contains(id_column) {
                    let k = choose|k: int| 0 <= k < rest.len() && rest[k] == id_column;
                    assert(columns[k] == columns[columns.len() - 1]);
                }
            }
        } else {
            assert(columns.contains(id_column) <==> rest.contains(id_column)) by {
                if columns.contains(id_column) {
                    let k = choose|k: int| 0 <= k < columns.len() && columns[k] == id_column;
                    assert(rest[k] == id_column);
                }
                if rest.contains(id_column) {
                    let k = choose|k: int| 0 <= k < rest.len() && rest[k] == id_column;
                    assert(columns[k] == id_column);
                }
            }
        }
    }
}

proof fn lemma_non_id_keeps(columns: Seq<Seq<char>>, id_column: Seq<char>, c: Seq<char>)
    requires
        columns.contains(c),
        c != id_column,
    ensures
        non_id_columns(columns, id_column).contains(c),
    decreases columns.len(),
{
    let rest = columns.drop_last();
    if columns.last() == c {
        assert(non_id_columns(columns, id_column).last() == c);
    } else {
        let k = choose|k: int| 0 <= k < columns.len() && columns[k] == c;
        assert(rest[k] == c);
        lemma_non_id_keeps(rest, id_column, c);
        let r = non_id_columns(rest, id_column);
        let j = choose|j: int| 0 <= j < r.len() && r[j] == c;
        if columns.last() != id_column {
            assert(r.push(columns.last())[j] == c);
        }
    }
}

/// Law: the generated update binds every field, the id last, and as many values as the insert
/// does, for a struct whose field names are distinct.
pub proof fn lemma_update_binds_every_field(input: StructInput, crud: CrudImpl)
    requires
        input.fields.len() > 0,
        crud.describes(input),
        distinct(field_names(input.fields@)),
    ensures
        crud.update_binds.len() == crud.insert_binds.len(),
        crud.update_binds@.last()@ == id_column_name(input.fields@),
        forall|i: int|
            0 <= i < input.fields.len() ==> texts(crud.update_binds@).contains(
                #[trigger] input.fields@[i].name@,
            ),
{
    let fields = input.fields@;
    let names = field_names(fields);
    let id = id_column_name(fields);
    lemma_id_field_in_range(fields);
    assert(names.contains(id));
    lemma_non_id_len(names, id);
    assert(crud.update_binds@.len() == texts(crud.update_binds@).len());
    assert(crud.insert_binds@.len() == texts(crud.insert_binds@).len());
    assert(texts(crud.update_binds@).last() == id);
    assert forall|i: int| 0 <= i < fields.len() implies texts(crud.update_binds@).contains(
        #[trigger] fields[i].name@,
    ) by {
        let c = fields[i].name@;
        assert(names[i] == c);
        let ub = texts(crud.update_binds@);
        if c == id {
            assert(ub[ub.len() - 1] == c);
        } else {
            lemma_non_id_keeps(names, id, c);
            let r = non_id_columns(names, id);
            let j = choose|j: int| 0 <= j < r.len() && r[j] == c;
            assert(ub[j] == c);
        }
    }
}


/// Law: a list of attributes has `#[name]` exactly when one of them, at any position, has
/// `name` as its path.
pub proof fn law_has_attr(attrs: Seq<AttrInput>, name: Seq<char>, k: int)
    ensures
        (0 <= k < attrs.len() && (attrs[k].ident matches Some(i) && i@ == name)) ==> has_attr(
            attrs,
            name,
        ),
        has_attr(attrs, name) ==> exists|j: int|
            0 <= j < attrs.len() && ((#[trigger] attrs[j]).ident matches Some(i) && i@ == name),
        (forall|j: int|
            0 <= j < attrs.len() ==> !((#[trigger] attrs[j]).ident matches Some(i) && i@ == name))
            ==> !has_attr(attrs, name),
{
    if 0 <= k < attrs.len() && (attrs[k].ident matches Some(i) && i@ == name) {
        assert(attr_is(attrs[k], name));
    }
    if has_attr(attrs, name) {
        let j = choose|j: int| 0 <= j < attrs.len() && attr_is(#[trigger] attrs[j], name);
        assert(attrs[j].ident matches Some(i) && i@ == name);
    }
}

/// Law: the id field is the first field one of whose attributes, at any position, is `#[id]`;
/// where no attribute of any field is, it is the first field.
pub proof fn law_id_field(fields: Seq<FieldInput>, k: int, p: int)
    ensures
        (0 <= k < fields.len() && 0 <= p < fields[k].attrs@.len() && (fields[k].attrs@[p].ident matches Some(i) && i@ == "id"@)
            && forall|j: int, q: int|
            0 <= j < k && 0 <= q < fields[j].attrs@.len() ==> !((#[trigger] fields[j].attrs@[q]).ident matches Some(i)
                && i@ == "id"@)) ==> id_field_index(fields) == k,
        (forall|j: int, q: int|
            0 <= j < fields.len() && 0 <= q < fields[j].attrs@.len() ==> !((#[trigger] fields[j].attrs@[q]).ident matches Some(
                i,
            ) && i@ == "id"@)) ==> id_field_index(fields) == 0,
{
    if 0 <= k < fields.len() && 0 <= p < fields[k].attrs@.len() && (fields[k].attrs@[p].ident matches Some(i) && i@ == "id"@)
        && forall|j: int, q: int|
        0 <= j < k && 0 <= q < fields[j].attrs@.len() ==> !((#[trigger] fields[j].attrs@[q]).ident matches Some(i) && i@
            == "id"@) {
        law_has_attr(fields[k].attrs@, "id"@, p);
        assert(is_first_id_field(fields, k)) by {
            assert forall|j: int| 0 <= j < k implies !is_id_field(#[trigger] fields[j]) by {
                if is_id_field(fields[j]) {
                    let q = choose|q: int|
                        0 <= q < fields[j].attrs@.len() && attr_is(#[trigger] fields[j].attrs@[q], "id"@);
                    assert(fields[j].attrs@[q].ident matches Some(i) && i@ == "id"@);
                }
            }
        }
        let c = choose|i: int| is_first_id_field(fields, i);
        assert(c == k) by {
            if c < k {
                assert(!is_id_field(fields[c]));
            } else if c > k {
                assert(!is_id_field(fields[k]));
            }
        }
    }
    if forall|j: int, q: int|
        0 <= j < fields.len() && 0 <= q < fields[j].attrs@.len() ==> !((#[trigger] fields[j].attrs@[q]).ident matches Some(
            i,
        ) && i@ == "id"@) {
        if exists|i: int| is_first_id_field(fields, i) {
            let c = choose|i: int| is_first_id_field(fields, i);
            let q = choose|q: int|
                0 <= q < fields[c].attrs@.len() && attr_is(#[trigger] fields[c].attrs@[q], "id"@);
            assert(fields[c].attrs@[q].ident matches Some(i) && i@ == "id"@);
        }
    }
}

/// Law: the database is read from the first attribute, at any position, whose path is
/// `database`: its string value where it has one, none where it has another form or where no
/// attribute is `#[database ...]`.
pub proof fn law_database_attr(attrs: Seq<AttrInput>, k: int)
    ensures
        (0 <= k < attrs.len() && (attrs[k].ident matches Some(i) && i@ == "database"@) && forall|j: int|
            0 <= j < k ==> !((#[trigger] attrs[j]).ident matches Some(i) && i@ == "database"@)) ==> database_attr(attrs)
            == match attrs[k].str_value {
            Some(v) => Some(v@),
            None => None::<Seq<char>>,
        },
        (forall|j: int|
            0 <= j < attrs.len() ==> !((#[trigger] attrs[j]).ident matches Some(i) && i@ == "database"@))
            ==> database_attr(attrs) == None::<Seq<char>>,
{
    if 0 <= k < attrs.len() && (attrs[k].ident matches Some(i) && i@ == "database"@) && forall|j: int|
        0 <= j < k ==> !((#[trigger] attrs[j]).ident matches Some(i) && i@ == "database"@) {
        assert(is_first_attr(attrs, "database"@, k));
        let c = choose|i: int| is_first_attr(attrs, "database"@, i);
        assert(c == k) by {
            if c < k {
                assert(!attr_is(attrs[c], "database"@));
            } else if c > k {
                assert(!attr_is(attrs[k], "database"@));
            }
        }
    }
    if forall|j: int|
        0 <= j < attrs.len() ==> !((#[trigger] attrs[j]).ident matches Some(i) && i@ == "database"@) {
        if exists|i: int| is_first_attr(attrs, "database"@, i) {
            let c = choose|i: int| is_first_attr(attrs, "database"@, i);
            assert(attrs[c].ident matches Some(i) && i@ == "database"@);
        }
    }
}

} // verus!
