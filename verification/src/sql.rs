use vstd::prelude::*;

verus! {

/// The text of each item, in order, with `sep` between neighbours.
pub open spec fn join(items: Seq<Seq<char>>, sep: Seq<char>) -> Seq<char>
    decreases items.len(),
{
    if items.len() == 0 {
        Seq::empty()
    } else if items.len() == 1 {
        items[0]
    } else {
        join(items.drop_last(), sep) + sep + items.last()
    }
}

/// The character sequences of a sequence of strings.
pub open spec fn texts(v: Seq<String>) -> Seq<Seq<char>> {
    v.map_values(|s: String| s@)
}

/// Appends the items of `items`, separated by `sep`, to `out`.
pub fn push_joined(out: &mut String, items: &Vec<String>, sep: &str)
    ensures
        final(out)@ == old(out)@ + join(texts(items@), sep@),
{
    let ghost start = out@;
    let ghost all = texts(items@);
    let n = items.len();
    let mut i: usize = 0;
    while i < n
        invariant
            0 <= i <= n,
            n == items@.len(),
            all == texts(items@),
            out@ == start + join(all.take(i as int), sep@),
        decreases n - i,
    {
        assert(all.take(i + 1).drop_last() =~= all.take(i as int));
        if i > 0 {
            out.append(sep);
        }
        out.append(items[i].as_str());
        i = i + 1;
    }
    assert(all.take(n as int) =~= all);
}


/// The columns of a table other than its id column, in their order.
pub open spec fn non_id_columns(columns: Seq<Seq<char>>, id_column: Seq<char>) -> Seq<Seq<char>>
    decreases columns.len(),
{
    if columns.len() == 0 {
        Seq::empty()
    } else {
        let rest = non_id_columns(columns.drop_last(), id_column);
        if columns.last() == id_column {
            rest
        } else {
            rest.push(columns.last())
        }
    }
}

/// The column list of a SELECT: the column names separated by a comma and a space.
pub open spec fn column_list(columns: Seq<Seq<char>>) -> Seq<char> {
    join(columns, ", "@)
}

/// `SELECT <columns> FROM <table>`
pub open spec fn select_sql_text(table: Seq<char>, columns: Seq<Seq<char>>) -> Seq<char> {
    "SELECT "@ + column_list(columns) + " FROM "@ + table
}

/// `SELECT <columns> FROM <table> WHERE <id> = ? LIMIT 1`
pub open spec fn select_by_id_sql_text(
    table: Seq<char>,
    columns: Seq<Seq<char>>,
    id_column: Seq<char>,
) -> Seq<char> {
    select_sql_text(table, columns) + " WHERE "@ + id_column + " = ? LIMIT 1"@
}

/// One `?` placeholder for each of `n` values, separated by a comma and a space.
pub open spec fn placeholders(n: nat) -> Seq<char> {
    join(Seq::new(n, |i: int| "?"@), ", "@)
}

/// `INSERT INTO <table> VALUES (?, ..., ?)`, one placeholder per column.
pub open spec fn insert_sql_text(table: Seq<char>, columns: Seq<Seq<char>>) -> Seq<char> {
    "INSERT INTO "@ + table + " VALUES ("@ + placeholders(columns.len()) + ")"@
}

/// `<column> = ?` for each column.
pub open spec fn assignments(columns: Seq<Seq<char>>) -> Seq<Seq<char>> {
    columns.map_values(|c: Seq<char>| c + " = ?"@)
}

/// `UPDATE <table> SET <c> = ?, ... WHERE <id> = ?`, assigning every column but the id column.
pub open spec fn update_by_id_sql_text(
    table: Seq<char>,
    columns: Seq<Seq<char>>,
    id_column: Seq<char>,
) -> Seq<char> {
    "UPDATE "@ + table + " SET "@ + join(assignments(non_id_columns(columns, id_column)), ", "@)
        + " WHERE "@ + id_column + " = ?"@
}

/// `DELETE FROM <table> WHERE <id> = ?`
pub open spec fn delete_by_id_sql_text(table: Seq<char>, id_column: Seq<char>) -> Seq<char> {
    "DELETE FROM "@ + table + " WHERE "@ + id_column + " = ?"@
}

/// The five statements that operate on one table.
pub struct SqlQueries {
    pub select_sql: String,
    pub select_by_id_sql: String,
    pub insert_sql: String,
    pub update_by_id_sql: String,
    pub delete_by_id_sql: String,
}

impl SqlQueries {
    /// The statements are those of `table`, with `columns` and the id column `id_column`.
    pub open spec fn describe(
        &self,
        table: Seq<char>,
        columns: Seq<Seq<char>>,
        id_column: Seq<char>,
    ) -> bool {
        &&& self.select_sql@ == select_sql_text(table, columns)
        &&& self.select_by_id_sql@ == select_by_id_sql_text(table, columns, id_column)
        &&& self.insert_sql@ == insert_sql_text(table, columns)
        &&& self.update_by_id_sql@ == update_by_id_sql_text(table, columns, id_column)
        &&& self.delete_by_id_sql@ == delete_by_id_sql_text(table, id_column)
    }
}

/// The columns of `columns` other than `id_column`, in their order.
pub fn columns_without(columns: &Vec<String>, id_column: &String) -> (r: Vec<String>)
    ensures
        texts(r@) == non_id_columns(texts(columns@), id_column@),
{
    let ghost all = texts(columns@);
    let mut r: Vec<String> = Vec::new();
    let n = columns.len();
    let mut i: usize = 0;
    while i < n
        invariant
            0 <= i <= n,
            n == columns@.len(),
            all == texts(columns@),
            texts(r@) == non_id_columns(all.take(i as int), id_column@),
        decreases n - i,
    {
        assert(all.take(i + 1).drop_last() =~= all.take(i as int));
        if columns[i] != *id_column {
            r.push(columns[i].clone());
            assert(texts(r@) =~= non_id_columns(all.take(i as int), id_column@).push(all[i as int]));
        }
        i = i + 1;
    }
    assert(all.take(n as int) =~= all);
    r
}

/// The statements for `table`, whose columns are `columns` in order and whose id column is
/// `id_column`.
pub fn sql_queries_for(table: &str, columns: &Vec<String>, id_column: &String) -> (r: SqlQueries)
    ensures
        r.describe(table@, texts(columns@), id_column@),
{
    let mut list = String::new();
    push_joined(&mut list, columns, ", ");

    let mut select_sql = String::from_str("SELECT ");
    select_sql.append(list.as_str());
    select_sql.append(" FROM ");
    select_sql.append(table);

    let mut select_by_id_sql = select_sql.clone();
    select_by_id_sql.append(" WHERE ");
    select_by_id_sql.append(id_column.as_str());
    select_by_id_sql.append(" = ? LIMIT 1");

    let mut marks: Vec<String> = Vec::new();
    let n = columns.len();
    let mut i: usize = 0;
    while i < n
        invariant
            0 <= i <= n,
            texts(marks@) =~= Seq::new(i as nat, |k: int| "?"@),
        decreases n - i,
    {
        let mark = String::from_str("?");
        let ghost before = marks@;
        marks.push(mark);
        assert(texts(marks@) =~= texts(before).push("?"@));
        i = i + 1;
    }
    let mut insert_sql = String::from_str("INSERT INTO ");
    insert_sql.append(table);
    insert_sql.append(" VALUES (");
    push_joined(&mut insert_sql, &marks, ", ");
    insert_sql.append(")");

    let rest = columns_without(columns, id_column);
    let mut sets: Vec<String> = Vec::new();
    let m = rest.len();
    let mut j: usize = 0;
    while j < m
        invariant
            0 <= j <= m,
            m == rest@.len(),
            texts(sets@) =~= assignments(texts(rest@).take(j as int)),
        decreases m - j,
    {
        let mut a = rest[j].clone();
        a.append(" = ?");
        let ghost before = sets@;
        sets.push(a);
        assert(texts(sets@) =~= texts(before).push(texts(rest@)[j as int] + " = ?"@));
        assert(texts(rest@).take(j + 1) =~= texts(rest@).take(j as int).push(texts(rest@)[j as int]));
        j = j + 1;
    }
    assert(texts(rest@).take(m as int) =~= texts(rest@));
    let mut update_by_id_sql = String::from_str("UPDATE ");
    update_by_id_sql.append(table);
    update_by_id_sql.append(" SET ");
    push_joined(&mut update_by_id_sql, &sets, ", ");
    update_by_id_sql.append(" WHERE ");
    update_by_id_sql.append(id_column.as_str());
    update_by_id_sql.append(" = ?");

    let mut delete_by_id_sql = String::from_str("DELETE FROM ");
    delete_by_id_sql.append(table);
    delete_by_id_sql.append(" WHERE ");
    delete_by_id_sql.append(id_column.as_str());
    delete_by_id_sql.append(" = ?");

    SqlQueries { select_sql, select_by_id_sql, insert_sql, update_by_id_sql, delete_by_id_sql }
}


/// How many times `c` occurs in `s`.
pub open spec fn count_char(s: Seq<char>, c: char) -> nat
    decreases s.len(),
{
    if s.len() == 0 {
        0
    } else {
        count_char(s.drop_last(), c) + if s.last() == c { 1nat } else { 0nat }
    }
}

/// The number of times `c` occurs in the items, summed.
pub open spec fn count_in_items(items: Seq<Seq<char>>, c: char) -> nat
    decreases items.len(),
{
    if items.len() == 0 {
        0
    } else {
        count_in_items(items.drop_last(), c) + count_char(items.last(), c)
    }
}

/// Counting distributes over concatenation.
pub proof fn lemma_count_concat(a: Seq<char>, b: Seq<char>, c: char)
    ensures
        count_char(a + b, c) == count_char(a, c) + count_char(b, c),
    decreases b.len(),
{
    if b.len() == 0 {
        assert(a + b =~= a);
    } else {
        assert((a + b).drop_last() =~= a + b.drop_last());
        lemma_count_concat(a, b.drop_last(), c);
    }
}

/// A separator in which `c` does not occur adds nothing to the count of a join.
pub proof fn lemma_count_join(items: Seq<Seq<char>>, sep: Seq<char>, c: char)
    requires
        count_char(sep, c) == 0,
    ensures
        count_char(join(items, sep), c) == count_in_items(items, c),
    decreases items.len(),
{
    if items.len() == 0 {
    } else if items.len() == 1 {
        assert(count_in_items(items.drop_last(), c) == 0);
        assert(items.last() == items[0]);
    } else {
        lemma_count_join(items.drop_last(), sep, c);
        lemma_count_concat(join(items.drop_last(), sep), sep, c);
        lemma_count_concat(join(items.drop_last(), sep) + sep, items.last(), c);
    }
}

proof fn lemma_literal_counts()
    ensures
        count_char("SELECT "@, '?') == 0,
        count_char(", "@, '?') == 0,
        count_char(" FROM "@, '?') == 0,
        count_char(" WHERE "@, '?') == 0,
        count_char(" = ? LIMIT 1"@, '?') == 1,
        count_char("?"@, '?') == 1,
        count_char("INSERT INTO "@, '?') == 0,
        count_char(" VALUES ("@, '?') == 0,
        count_char(")"@, '?') == 0,
        count_char(" = ?"@, '?') == 1,
        count_char("UPDATE "@, '?') == 0,
        count_char(" SET "@, '?') == 0,
        count_char("DELETE FROM "@, '?') == 0,
{
    reveal_strlit("SELECT ");
    reveal_strlit(", ");
    reveal_strlit(" FROM ");
    reveal_strlit(" WHERE ");
    reveal_strlit(" = ? LIMIT 1");
    reveal_strlit("?");
    reveal_strlit("INSERT INTO ");
    reveal_strlit(" VALUES (");
    reveal_strlit(")");
    reveal_strlit(" = ?");
    reveal_strlit("UPDATE ");
    reveal_strlit(" SET ");
    reveal_strlit("DELETE FROM ");
    reveal_with_fuel(count_char, 13);
}


/// `c` occurs in none of the items.
pub open spec fn none_contain(items: Seq<Seq<char>>, c: char) -> bool {
    forall|i: int| 0 <= i < items.len() ==> count_char(#[trigger] items[i], c) == 0
}

proof fn lemma_clean_items(items: Seq<Seq<char>>, c: char)
    requires
        none_contain(items, c),
    ensures
        count_in_items(items, c) == 0,
    decreases items.len(),
{
    if items.len() > 0 {
        assert(count_char(items[items.len() - 1], c) == 0);
        lemma_clean_items(items.drop_last(), c);
    }
}

proof fn lemma_marks(n: nat)
    ensures
        count_in_items(Seq::new(n, |i: int| "?"@), '?') == n,
    decreases n,
{
    lemma_literal_counts();
    if n > 0 {
        assert(Seq::new(n, |i: int| "?"@).drop_last() =~= Seq::new((n - 1) as nat, |i: int| "?"@));
        lemma_marks((n - 1) as nat);
    }
}

proof fn lemma_assignment_marks(columns: Seq<Seq<char>>)
    requires
        none_contain(columns, '?'),
    ensures
        count_in_items(assignments(columns), '?') == columns.len(),
    decreases columns.len(),
{
    lemma_literal_counts();
    if columns.len() > 0 {
        let last = columns[columns.len() - 1];
        assert(count_char(last, '?') == 0);
        assert(assignments(columns).drop_last() =~= assignments(columns.drop_last()));
        assert(assignments(columns).last() == last + " = ?"@);
        lemma_count_concat(last, " = ?"@, '?');
        lemma_assignment_marks(columns.drop_last());
    }
}

proof fn lemma_non_id_clean(columns: Seq<Seq<char>>, id_column: Seq<char>, c: char)
    requires
        none_contain(columns, c),
    ensures
        none_contain(non_id_columns(columns, id_column), c),
    decreases columns.len(),
{
    if columns.len() > 0 {
        assert(count_char(columns[columns.len() - 1], c) == 0);
        lemma_non_id_clean(columns.drop_last(), id_column, c);
    }
}

/// Law: where no name contains `?`, each statement holds exactly as many `?` placeholders
/// as the values bound to it: one per column for the insert, one per non-id column and one
/// for the id for the update, one (the id) for the select and delete by id, none for the
/// select of all rows.
pub proof fn lemma_statement_placeholders(
    table: Seq<char>,
    columns: Seq<Seq<char>>,
    id_column: Seq<char>,
)
    requires
        count_char(table, '?') == 0,
        count_char(id_column, '?') == 0,
        none_contain(columns, '?'),
    ensures
        count_char(select_sql_text(table, columns), '?') == 0,
        count_char(select_by_id_sql_text(table, columns, id_column), '?') == 1,
        count_char(insert_sql_text(table, columns), '?') == columns.len(),
        count_char(update_by_id_sql_text(table, columns, id_column), '?')
            == non_id_columns(columns, id_column).len() + 1,
        count_char(delete_by_id_sql_text(table, id_column), '?') == 1,
{
    lemma_literal_counts();
    let q = '?';
    // SELECT
    lemma_clean_items(columns, q);
    lemma_count_join(columns, ", "@, q);
    let list = column_list(columns);
    lemma_count_concat("SELECT "@, list, q);
    lemma_count_concat("SELECT "@ + list, " FROM "@, q);
    lemma_count_concat("SELECT "@ + list + " FROM "@, table, q);
    // SELECT .. WHERE
    let sel = select_sql_text(table, columns);
    lemma_count_concat(sel, " WHERE "@, q);
    lemma_count_concat(sel + " WHERE "@, id_column, q);
    lemma_count_concat(sel + " WHERE "@ + id_column, " = ? LIMIT 1"@, q);
    // INSERT
    lemma_marks(columns.len());
    lemma_count_join(Seq::new(columns.len(), |i: int| "?"@), ", "@, q);
    let marks = placeholders(columns.len());
    lemma_count_concat("INSERT INTO "@, table, q);
    lemma_count_concat("INSERT INTO "@ + table, " VALUES ("@, q);
    lemma_count_concat("INSERT INTO "@ + table + " VALUES ("@, marks, q);
    lemma_count_concat("INSERT INTO "@ + table + " VALUES ("@ + marks, ")"@, q);
    // UPDATE
    let rest = non_id_columns(columns, id_column);
    lemma_non_id_clean(columns, id_column, q);
    lemma_assignment_marks(rest);
    lemma_count_join(assignments(rest), ", "@, q);
    let sets = join(assignments(rest), ", "@);
    lemma_count_concat("UPDATE "@, table, q);
    lemma_count_concat("UPDATE "@ + table, " SET "@, q);
    lemma_count_concat("UPDATE "@ + table + " SET "@, sets, q);
    lemma_count_concat("UPDATE "@ + table + " SET "@ + sets, " WHERE "@, q);
    lemma_count_concat("UPDATE "@ + table + " SET "@ + sets + " WHERE "@, id_column, q);
    lemma_count_concat("UPDATE "@ + table + " SET "@ + sets + " WHERE "@ + id_column, " = ?"@, q);
    // DELETE
    lemma_count_concat("DELETE FROM "@, table, q);
    lemma_count_concat("DELETE FROM "@ + table, " WHERE "@, q);
    lemma_count_concat("DELETE FROM "@ + table + " WHERE "@, id_column, q);
    lemma_count_concat("DELETE FROM "@ + table + " WHERE "@ + id_column, " = ?"@, q);
}


/// The statements of a table with two columns, the first of which is its id column, spelled
/// out.
pub proof fn lemma_two_column_statements(table: Seq<char>, id_column: Seq<char>, other: Seq<char>)
    requires
        id_column != other,
    ensures
        select_sql_text(table, seq![id_column, other])
            == "SELECT "@ + id_column + ", "@ + other + " FROM "@ + table,
        select_by_id_sql_text(table, seq![id_column, other], id_column)
            == "SELECT "@ + id_column + ", "@ + other + " FROM "@ + table + " WHERE "@ + id_column
            + " = ? LIMIT 1"@,
        insert_sql_text(table, seq![id_column, other])
            == "INSERT INTO "@ + table + " VALUES ("@ + "?"@ + ", "@ + "?"@ + ")"@,
        update_by_id_sql_text(table, seq![id_column, other], id_column)
            == "UPDATE "@ + table + " SET "@ + other + " = ?"@ + " WHERE "@ + id_column + " = ?"@,
{
    let cols = seq![id_column, other];
    assert(cols.drop_last() =~= seq![id_column]);
    assert(join(cols.drop_last(), ", "@) == id_column);
    assert(join(cols, ", "@) == id_column + ", "@ + other);
    let marks = Seq::new(2, |i: int| "?"@);
    assert(marks.drop_last() =~= seq!["?"@]);
    assert(join(marks.drop_last(), ", "@) == "?"@);
    assert(join(marks, ", "@) == "?"@ + ", "@ + "?"@);
    assert(cols.drop_last().drop_last() =~= Seq::<Seq<char>>::empty());
    assert(non_id_columns(cols.drop_last().drop_last(), id_column) =~= Seq::<Seq<char>>::empty());
    assert(cols.drop_last().last() == id_column);
    assert(non_id_columns(cols.drop_last(), id_column) =~= Seq::<Seq<char>>::empty());
    assert(cols.last() == other);
    assert(non_id_columns(cols, id_column) =~= seq![other]);
    assert(assignments(seq![other]) =~= seq![other + " = ?"@]);
    assert(join(assignments(seq![other]), ", "@) == other + " = ?"@);
}


/// Law: the column list of no column is empty, that of one column is its name, and each
/// further column adds a comma, a space and its name.
pub proof fn law_column_list(columns: Seq<Seq<char>>, c: Seq<char>)
    ensures
        column_list(Seq::empty()) == Seq::<char>::empty(),
        column_list(seq![c]) == c,
        columns.len() > 0 ==> column_list(columns.push(c)) == column_list(columns) + ", "@ + c,
{
    assert(seq![c].drop_last() =~= Seq::<Seq<char>>::empty());
    assert(columns.push(c).drop_last() =~= columns);
}

/// Law: the select of all rows lists the columns between `SELECT ` and ` FROM <table>`; one
/// more column adds a comma, a space and its name before ` FROM`; the select by id is the select
/// of all rows followed by ` WHERE <id> = ? LIMIT 1`.
pub proof fn law_select_statements(
    table: Seq<char>,
    columns: Seq<Seq<char>>,
    c: Seq<char>,
    id_column: Seq<char>,
)
    ensures
        select_sql_text(table, Seq::empty()) == "SELECT "@ + " FROM "@ + table,
        select_sql_text(table, seq![c]) == "SELECT "@ + c + " FROM "@ + table,
        columns.len() > 0 ==> {
            let before = select_sql_text(table, columns);
            let tail = " FROM "@ + table;
            &&& before == before.take(before.len() - tail.len()) + tail
            &&& select_sql_text(table, columns.push(c)) == before.take(before.len() - tail.len())
                + ", "@ + c + tail
        },
        select_by_id_sql_text(table, columns, id_column) == select_sql_text(table, columns)
            + " WHERE "@ + id_column + " = ? LIMIT 1"@,
{
    law_column_list(columns, c);
    assert(select_sql_text(table, Seq::empty()) =~= "SELECT "@ + " FROM "@ + table);
    assert(select_sql_text(table, seq![c]) =~= "SELECT "@ + c + " FROM "@ + table);
    if columns.len() > 0 {
        let before = select_sql_text(table, columns);
        let tail = " FROM "@ + table;
        let head = "SELECT "@ + column_list(columns);
        assert(before =~= head + tail);
        assert(before.take(before.len() - tail.len()) =~= head);
        assert(select_sql_text(table, columns.push(c)) =~= head + ", "@ + c + tail);
    }
}

/// Law: the value list of no value is empty, that of one value is `?`, and each further value
/// adds `, ?`.
pub proof fn law_placeholders(n: nat)
    ensures
        placeholders(0) == Seq::<char>::empty(),
        placeholders(1) == "?"@,
        n > 0 ==> placeholders(n + 1) == placeholders(n) + ", "@ + "?"@,
{
    assert(Seq::new(1, |i: int| "?"@).drop_last() =~= Seq::<Seq<char>>::empty());
    assert(Seq::new(n + 1, |i: int| "?"@).drop_last() =~= Seq::new(n, |i: int| "?"@));
}

/// Law: the insert holds one `?` per column between `VALUES (` and `)`: none for no column,
/// `?` for one, and each further column adds `, ?` before the closing bracket, whatever the
/// columns are called.
pub proof fn law_insert_statement(table: Seq<char>, columns: Seq<Seq<char>>, c: Seq<char>)
    ensures
        insert_sql_text(table, Seq::empty()) == "INSERT INTO "@ + table + " VALUES ("@ + ")"@,
        insert_sql_text(table, seq![c]) == "INSERT INTO "@ + table + " VALUES ("@ + "?"@ + ")"@,
        columns.len() > 0 ==> {
            let before = insert_sql_text(table, columns);
            &&& before == before.take(before.len() - 1) + ")"@
            &&& insert_sql_text(table, columns.push(c)) == before.take(before.len() - 1) + ", "@
                + "?"@ + ")"@
        },
        forall|other: Seq<Seq<char>>|
            other.len() == columns.len() ==> #[trigger] insert_sql_text(table, other)
                == insert_sql_text(table, columns),
{
    law_placeholders(columns.len());
    law_placeholders(0);
    assert(insert_sql_text(table, Seq::empty()) =~= "INSERT INTO "@ + table + " VALUES ("@ + ")"@);
    assert(insert_sql_text(table, seq![c]) =~= "INSERT INTO "@ + table + " VALUES ("@ + "?"@ + ")"@);
    if columns.len() > 0 {
        let before = insert_sql_text(table, columns);
        let head = "INSERT INTO "@ + table + " VALUES ("@ + placeholders(columns.len());
        assert(before =~= head + ")"@);
        reveal_strlit(")");
        assert(before.take(before.len() - 1) =~= head);
        assert(insert_sql_text(table, columns.push(c)) =~= head + ", "@ + "?"@ + ")"@);
    }
}

/// Law: the update assigns the non-id columns between `SET ` and ` WHERE <id> = ?`: with none
/// the list is empty, the first is `<c> = ?`, each further one adds `, <c> = ?` before the
/// ` WHERE`, and a column named like the id column adds nothing.
pub proof fn law_update_statement(
    table: Seq<char>,
    columns: Seq<Seq<char>>,
    id_column: Seq<char>,
    c: Seq<char>,
)
    ensures
        ({
            let tail = " WHERE "@ + id_column + " = ?"@;
            let before = update_by_id_sql_text(table, columns, id_column);
            &&& before == before.take(before.len() - tail.len()) + tail
            &&& non_id_columns(columns, id_column).len() == 0 ==> before == "UPDATE "@ + table
                + " SET "@ + tail
            &&& (c != id_column && non_id_columns(columns, id_column).len() == 0) ==>
                update_by_id_sql_text(table, columns.push(c), id_column) == "UPDATE "@ + table
                    + " SET "@ + c + " = ?"@ + tail
            &&& (c != id_column && non_id_columns(columns, id_column).len() > 0) ==>
                update_by_id_sql_text(table, columns.push(c), id_column) == before.take(
                    before.len() - tail.len(),
                ) + ", "@ + c + " = ?"@ + tail
            &&& update_by_id_sql_text(table, columns.push(id_column), id_column) == before
        }),
{
    let tail = " WHERE "@ + id_column + " = ?"@;
    let rest = non_id_columns(columns, id_column);
    let sets = join(assignments(rest), ", "@);
    let head = "UPDATE "@ + table + " SET "@ + sets;
    let before = update_by_id_sql_text(table, columns, id_column);
    assert(before =~= head + tail);
    assert(before.take(before.len() - tail.len()) =~= head);
    assert(columns.push(c).drop_last() =~= columns);
    assert(columns.push(id_column).drop_last() =~= columns);
    assert(non_id_columns(columns.push(id_column), id_column) == rest);
    if rest.len() == 0 {
        assert(assignments(rest) =~= Seq::<Seq<char>>::empty());
        assert(before =~= "UPDATE "@ + table + " SET "@ + tail);
    }
    if c != id_column {
        assert(non_id_columns(columns.push(c), id_column) == rest.push(c));
        assert(assignments(rest.push(c)) =~= assignments(rest).push(c + " = ?"@));
        assert(assignments(rest.push(c)).drop_last() =~= assignments(rest));
        if rest.len() == 0 {
            assert(assignments(rest.push(c)) =~= seq![c + " = ?"@]);
            assert(update_by_id_sql_text(table, columns.push(c), id_column) =~= "UPDATE "@ + table
                + " SET "@ + c + " = ?"@ + tail);
        } else {
            assert(join(assignments(rest.push(c)), ", "@) == sets + ", "@ + (c + " = ?"@));
            assert(update_by_id_sql_text(table, columns.push(c), id_column) =~= head + ", "@ + c
                + " = ?"@ + tail);
        }
    }
    assert(update_by_id_sql_text(table, columns.push(id_column), id_column) =~= before);
}

} // verus!
