use vstd::prelude::*;

verus! {

/// What `inflector::cases::tablecase::to_table_case` returns for a name: the name in
/// snake case with its last word pluralised.
pub uninterp spec fn table_case(name: Seq<char>) -> Seq<char>;

/// What `inflector::cases::screamingsnakecase::to_screaming_snake_case` returns for a name:
/// the name's words in upper case, joined by underscores.
pub uninterp spec fn screaming_snake_case(name: Seq<char>) -> Seq<char>;

/// Calls `inflector::cases::tablecase::to_table_case`. The contract claims only that the
/// result is a function of the argument's characters, named `table_case`; the crate computes
/// it by snake-casing the name and pluralising its last word through a table of regular
/// expressions, which is left unstated here.
#[verifier::external_body]
fn inflector_table_case(name: &str) -> (r: String)
    ensures
        r@ == table_case(name@),
{
    inflector::cases::tablecase::to_table_case(name)
}

/// Calls `inflector::cases::screamingsnakecase::to_screaming_snake_case`. The contract claims
/// only that the result is a function of the argument's characters, named
/// `screaming_snake_case`; how the crate splits the name into words is left unstated here.
#[verifier::external_body]
fn inflector_screaming_snake_case(name: &str) -> (r: String)
    ensures
        r@ == screaming_snake_case(name@),
{
    inflector::cases::screamingsnakecase::to_screaming_snake_case(name)
}

/// The table a struct named `ident` stands for: its name in table case (`User` gives `users`).
pub fn table_name(ident: &str) -> (r: String)
    ensures
        r@ == table_case(ident@),
{
    inflector_table_case(ident)
}

/// The name of the static that holds a struct's schema metadata: the struct's name in
/// screaming snake case followed by `_SCHEMA` (`User` gives `USER_SCHEMA`).
pub fn model_schema_ident(ident: &str) -> (r: String)
    ensures
        r@ == screaming_snake_case(ident@) + "_SCHEMA"@,
{
    let mut r = inflector_screaming_snake_case(ident);
    r.append("_SCHEMA");
    r
}

/// Whether two texts are equal.
pub fn text_eq(a: &String, b: &str) -> (r: bool)
    ensures
        r == (a@ == b@),
{
    *a == b.to_owned()
}

/// The path by which generated code names this library.
#[derive(Clone, Copy, Debug, PartialEq, Eq, Structural)]
pub enum CratePath {
    /// `crate`: the code is generated inside this library itself.
    Crate,
    /// `::sqlx_crud`: the code is generated in a crate that depends on this library.
    SqlxCrud,
}

/// What the build environment tells the code generator: the package being compiled and the
/// names of the environment variables that are set.
pub struct BuildEnv {
    pub package_name: String,
    pub variable_names: Vec<String>,
}

/// The environment variables that rustdoc sets while it compiles a documentation test.
pub open spec fn is_doctest_variable(name: Seq<char>) -> bool {
    name == "UNSTABLE_RUSTDOC_TEST_LINE"@ || name == "UNSTABLE_RUSTDOC_TEST_PATH"@
}

/// The build compiles a documentation test.
pub open spec fn is_doctest(variable_names: Seq<String>) -> bool {
    exists|i: int| 0 <= i < variable_names.len() && is_doctest_variable(#[trigger] variable_names[i]@)
}

/// `crate` when the package being built is this library itself, outside a documentation test;
/// `::sqlx_crud` otherwise.
pub open spec fn crate_path_for(package_name: Seq<char>, variable_names: Seq<String>) -> CratePath {
    if !is_doctest(variable_names) && package_name == "sqlx-crud"@ {
        CratePath::Crate
    } else {
        CratePath::SqlxCrud
    }
}

/// The path by which generated code names this library, in the given build environment.
pub fn crate_name(env: &BuildEnv) -> (r: CratePath)
    ensures
        r == crate_path_for(env.package_name@, env.variable_names@),
{
    let n = env.variable_names.len();
    let mut doctest = false;
    let mut i: usize = 0;
    while i < n
        invariant
            0 <= i <= n,
            n == env.variable_names@.len(),
            doctest == exists|k: int| 0 <= k < i && is_doctest_variable(#[trigger] env.variable_names@[k]@),
        decreases n - i,
    {
        let name = &env.variable_names[i];
        if text_eq(name, "UNSTABLE_RUSTDOC_TEST_LINE") || text_eq(name, "UNSTABLE_RUSTDOC_TEST_PATH") {
            doctest = true;
        }
        i = i + 1;
    }
    if !doctest && text_eq(&env.package_name, "sqlx-crud") {
        CratePath::Crate
    } else {
        CratePath::SqlxCrud
    }
}


/// Law: generated code names the library `crate` exactly when the package is `sqlx-crud` and
/// no environment variable, at any position, is one of rustdoc's test markers; a marker
/// anywhere, or another package, gives `::sqlx_crud`.
pub proof fn law_crate_path(package_name: Seq<char>, variable_names: Seq<String>, i: int)
    ensures
        (0 <= i < variable_names.len() && (variable_names[i]@ == "UNSTABLE_RUSTDOC_TEST_LINE"@
            || variable_names[i]@ == "UNSTABLE_RUSTDOC_TEST_PATH"@)) ==> crate_path_for(
            package_name,
            variable_names,
        ) == CratePath::SqlxCrud,
        package_name != "sqlx-crud"@ ==> crate_path_for(package_name, variable_names)
            == CratePath::SqlxCrud,
        (package_name == "sqlx-crud"@ && forall|k: int|
            0 <= k < variable_names.len() ==> (#[trigger] variable_names[k])@
                != "UNSTABLE_RUSTDOC_TEST_LINE"@ && variable_names[k]@
                != "UNSTABLE_RUSTDOC_TEST_PATH"@) ==> crate_path_for(package_name, variable_names)
            == CratePath::Crate,
{
    if 0 <= i < variable_names.len() && (variable_names[i]@ == "UNSTABLE_RUSTDOC_TEST_LINE"@
        || variable_names[i]@ == "UNSTABLE_RUSTDOC_TEST_PATH"@) {
        assert(is_doctest_variable(variable_names[i]@));
    }
}

} // verus!
