//! PostgreSQL bridge: Doris table schemas as PostgreSQL DDL.
use vstd::prelude::*;
use crate::describe::{DescribeLayout, describe_layout, layout_of, row_fits, rows_fit, check_rows_fit, nullable, is_nullable, upper_is};
use crate::output::ResultSet;
use crate::text::{is_ascii_str, ascii_upper_str, to_uppercase, trim_str, before_char_str, str_eq, push_str, push_line, upper_case, trim, before_char, lines_text, join_with, join_strings};
use crate::statements::DescribeError;
use crate::diff::{ChangeKind, diff_lines, show_changes, has_changes, line_changes, shown_change, changes_view};

verus! {

/// The PostgreSQL subcommands.
#[allow(inconsistent_fields)]
pub enum PostgresCmd {
    /// Export a Doris table schema as PostgreSQL-compatible DDL.
    ExportSchema { table: String, db: Option<String>, output: Option<String>, if_not_exists: bool, schema: String },
    /// Export all tables in a database.
    ExportAll { db: String, output: Option<String>, schema: String },
    /// Compare Doris table schema with a Postgres DDL file.
    Compare { table: String, file: String, db: Option<String> },
}

/// The base name of a Doris type for the PostgreSQL mapping: upper case,
/// without its `(precision, scale)`, trimmed.
pub open spec fn pg_base(doris_type: Seq<char>) -> Seq<char> {
    pg_base_of_upper(upper_case(doris_type))
}

/// The base name of an upper-case Doris type: without its
/// `(precision, scale)`, trimmed.
pub open spec fn pg_base_of_upper(upper: Seq<char>) -> Seq<char> {
    trim(before_char(upper, '('))
}

/// The PostgreSQL type of a Doris base type.
pub open spec fn pg_type_name(base: Seq<char>) -> Seq<char> {
    if base == "TINYINT"@ || base == "SMALLINT"@ {
        "SMALLINT"@
    } else if base == "INT"@ {
        "INTEGER"@
    } else if base == "BIGINT"@ {
        "BIGINT"@
    } else if base == "LARGEINT"@ {
        "NUMERIC(38,0)"@
    } else if base == "FLOAT"@ {
        "REAL"@
    } else if base == "DOUBLE"@ {
        "DOUBLE PRECISION"@
    } else if base == "DECIMAL"@ {
        "NUMERIC"@
    } else if base == "BOOLEAN"@ {
        "BOOLEAN"@
    } else if base == "CHAR"@ {
        "CHAR"@
    } else if base == "VARCHAR"@ {
        "VARCHAR"@
    } else if base == "STRING"@ || base == "TEXT"@ {
        "TEXT"@
    } else if base == "DATE"@ || base == "DATEV2"@ {
        "DATE"@
    } else if base == "DATETIME"@ || base == "DATETIMEV2"@ {
        "TIMESTAMP"@
    } else if base == "JSON"@ || base == "ARRAY"@ || base == "MAP"@ || base == "STRUCT"@ {
        "JSONB"@
    } else if base == "HLL"@ || base == "BITMAP"@ {
        "BYTEA"@
    } else {
        "TEXT"@
    }
}

fn pg_name(base: &str) -> (r: &'static str)
    ensures
        r@ == pg_type_name(base@),
{
    if str_eq(base, "TINYINT") || str_eq(base, "SMALLINT") {
        "SMALLINT"
    } else if str_eq(base, "INT") {
        "INTEGER"
    } else if str_eq(base, "BIGINT") {
        "BIGINT"
    } else if str_eq(base, "LARGEINT") {
        "NUMERIC(38,0)"
    } else if str_eq(base, "FLOAT") {
        "REAL"
    } else if str_eq(base, "DOUBLE") {
        "DOUBLE PRECISION"
    } else if str_eq(base, "DECIMAL") {
        "NUMERIC"
    } else if str_eq(base, "BOOLEAN") {
        "BOOLEAN"
    } else if str_eq(base, "CHAR") {
        "CHAR"
    } else if str_eq(base, "VARCHAR") {
        "VARCHAR"
    } else if str_eq(base, "STRING") || str_eq(base, "TEXT") {
        "TEXT"
    } else if str_eq(base, "DATE") || str_eq(base, "DATEV2") {
        "DATE"
    } else if str_eq(base, "DATETIME") || str_eq(base, "DATETIMEV2") {
        "TIMESTAMP"
    } else if str_eq(base, "JSON") || str_eq(base, "ARRAY") || str_eq(base, "MAP") || str_eq(
        base,
        "STRUCT",
    ) {
        "JSONB"
    } else if str_eq(base, "HLL") || str_eq(base, "BITMAP") {
        "BYTEA"
    } else {
        "TEXT"
    }
}

/// The PostgreSQL type of a Doris column type already in upper case.
pub fn pg_type_of_upper(upper: &str) -> (r: &'static str)
    ensures
        r@ == pg_type_name(pg_base_of_upper(upper@)),
{
    let before = before_char_str(upper, '(');
    let base = trim_str(before.as_str());
    pg_name(base.as_str())
}

/// The PostgreSQL type of a Doris column type.
pub fn doris_to_pg_type(doris_type: &str) -> (r: &'static str)
    ensures
        r@ == pg_type_name(pg_base(doris_type@)),
        is_ascii_str(doris_type@) ==> r@ == pg_type_name(pg_base_of_upper(ascii_upper_str(doris_type@))),
{
    let upper = to_uppercase(doris_type);
    pg_type_of_upper(upper.as_str())
}

/// Whether a described column belongs to the primary key: its `Key` cell
/// reads `YES` or `PRI` in upper case.
pub open spec fn is_key(l: DescribeLayout, row: Seq<Seq<char>>) -> bool {
    match l.key {
        Some(k) => upper_case(row[k as int]) == "YES"@ || upper_case(row[k as int]) == "PRI"@,
        None => false,
    }
}

/// The double-quoted names of the key columns among `rows`, in order.
pub open spec fn key_columns(l: DescribeLayout, rows: Seq<Seq<Seq<char>>>) -> Seq<Seq<char>>
    decreases rows.len(),
{
    if rows.len() == 0 {
        Seq::empty()
    } else {
        let before = key_columns(l, rows.drop_last());
        if is_key(l, rows.last()) {
            before.push("\""@ + rows.last()[l.field as int] + "\""@)
        } else {
            before
        }
    }
}

/// The DDL line of the `i`-th column: a comma follows unless it is the last
/// column and no key column has been seen up to it.
pub open spec fn pg_column_line(l: DescribeLayout, rows: Seq<Seq<Seq<char>>>, i: int) -> Seq<char> {
    let row = rows[i];
    "  \""@ + row[l.field as int] + "\" "@ + pg_type_name(pg_base(row[l.ty as int])) + (if nullable(
        l,
        row,
    ) {
        Seq::empty()
    } else {
        " NOT NULL"@
    }) + (if i < rows.len() - 1 || key_columns(l, rows.take(i + 1)).len() > 0 {
        ","@
    } else {
        Seq::empty()
    })
}

/// The lines of the `CREATE TABLE` of a described table.
pub open spec fn pg_ddl_lines(
    table: Seq<char>,
    schema: Seq<char>,
    if_not_exists: bool,
    l: DescribeLayout,
    rows: Seq<Seq<Seq<char>>>,
) -> Seq<Seq<char>> {
    let guard = if if_not_exists {
        "IF NOT EXISTS "@
    } else {
        Seq::empty()
    };
    let keys = key_columns(l, rows);
    seq![
        "-- "@ + schema + "."@ + table,
        "CREATE TABLE "@ + guard + schema + "."@ + "\""@ + table + "\" ("@,
    ] + Seq::new(rows.len(), |i: int| pg_column_line(l, rows, i)) + (if keys.len() > 0 {
        seq!["  PRIMARY KEY ("@ + join_with(keys, ", "@) + ")"@]
    } else {
        Seq::empty()
    }) + seq![");"@]
}

proof fn lemma_lines_push(lines: Seq<Seq<char>>, line: Seq<char>)
    ensures
        lines_text(lines.push(line)) == lines_text(lines) + line + "\n"@,
{
    assert(lines.push(line).drop_last() =~= lines);
}

/// PostgreSQL DDL for the described columns.
pub fn emit_pg_ddl(table: &str, schema: &str, if_not_exists: bool, l: &DescribeLayout, rows: &Vec<Vec<String>>) -> (r: String)
    requires
        rows_fit(*l, rows.deep_view(), true),
    ensures
        r@ == lines_text(pg_ddl_lines(table@, schema@, if_not_exists, *l, rows.deep_view())),
{
    proof {
        reveal_strlit("");
    }
    let ghost rv = rows.deep_view();
    let ghost col_lines = Seq::new(rv.len(), |i: int| pg_column_line(*l, rv, i));
    let mut first = String::from_str("-- ");
    push_str(&mut first, schema);
    push_str(&mut first, ".");
    push_str(&mut first, table);
    let mut second = String::from_str("CREATE TABLE ");
    if if_not_exists {
        push_str(&mut second, "IF NOT EXISTS ");
    }
    push_str(&mut second, schema);
    push_str(&mut second, ".");
    push_str(&mut second, "\"");
    push_str(&mut second, table);
    push_str(&mut second, "\" (");
    let ghost head = seq![first@, second@];
    let mut r = String::new();
    push_line(&mut r, first.as_str());
    push_line(&mut r, second.as_str());
    proof {
        assert(lines_text(Seq::<Seq<char>>::empty()) == Seq::<char>::empty());
        lemma_lines_push(Seq::<Seq<char>>::empty(), first@);
        lemma_lines_push(seq![first@], second@);
        assert(seq![first@].push(second@) =~= head);
        assert(seq![first@] =~= Seq::<Seq<char>>::empty().push(first@));
    }
    let mut keys: Vec<String> = Vec::new();
    let n = rows.len();
    let mut i: usize = 0;
    while i < n
        invariant
            i <= n,
            n == rows@.len(),
            rv == rows.deep_view(),
            rows_fit(*l, rv, true),
            col_lines == Seq::new(rv.len(), |i: int| pg_column_line(*l, rv, i)),
            r@ == lines_text(head + col_lines.take(i as int)),
            keys.deep_view() == key_columns(*l, rv.take(i as int)),
        decreases n - i,
    {
        let row = &rows[i];
        assert(rv[i as int] == row.deep_view());
        assert(row_fits(*l, rv[i as int], true));
        assert(rv.take(i + 1).drop_last() =~= rv.take(i as int));
        assert(rv.take(i + 1).last() == rv[i as int]);
        let key = match l.key {
            Some(k) => upper_is(row[k].as_str(), "YES") || upper_is(row[k].as_str(), "PRI"),
            None => false,
        };
        if key {
            let mut quoted = String::from_str("\"");
            push_str(&mut quoted, row[l.field].as_str());
            push_str(&mut quoted, "\"");
            let ghost before = keys.deep_view();
            let ghost qv = quoted@;
            keys.push(quoted);
            assert(keys.deep_view() =~= before.push(qv));
        }
        assert(keys.deep_view() == key_columns(*l, rv.take(i + 1)));
        let mut line = String::from_str("  \"");
        push_str(&mut line, row[l.field].as_str());
        push_str(&mut line, "\" ");
        push_str(&mut line, doris_to_pg_type(row[l.ty].as_str()));
        if !is_nullable(l, row) {
            push_str(&mut line, " NOT NULL");
        }
        if i < n - 1 || keys.len() > 0 {
            push_str(&mut line, ",");
        }
        assert(line@ =~= pg_column_line(*l, rv, i as int));
        proof {
            lemma_lines_push(head + col_lines.take(i as int), line@);
            assert((head + col_lines.take(i as int)).push(line@) =~= head + col_lines.take(i + 1));
        }
        push_line(&mut r, line.as_str());
        i += 1;
    }
    assert(head + col_lines.take(n as int) =~= head + col_lines);
    assert(rv.take(n as int) =~= rv);
    let ghost body = head + col_lines;
    if keys.len() > 0 {
        let mut pk = String::from_str("  PRIMARY KEY (");
        let joined = join_strings(&keys, ", ");
        push_str(&mut pk, joined.as_str());
        push_str(&mut pk, ")");
        proof {
            lemma_lines_push(body, pk@);
        }
        push_line(&mut r, pk.as_str());
        proof {
            lemma_lines_push(body.push(pk@), ");"@);
            assert(body.push(pk@).push(");"@) =~= pg_ddl_lines(table@, schema@, if_not_exists, *l, rv));
        }
    } else {
        proof {
            lemma_lines_push(body, ");"@);
            assert(body.push(");"@) =~= pg_ddl_lines(table@, schema@, if_not_exists, *l, rv));
        }
    }
    push_line(&mut r, ");");
    r
}

/// The DDL of a table whose `DESCRIBE` gave `described`; a table with no
/// columns is refused, and so is a description whose rows lack a cell the
/// layout points at.
pub fn export_table(table: &str, schema: &str, if_not_exists: bool, described: &ResultSet) -> (r: Result<String, DescribeError>)
    ensures
        described.rows@.len() == 0 ==> (r matches Err(DescribeError::NoColumns(t)) && t@ == table@),
        described.rows@.len() > 0 && !rows_fit(layout_of(described.columns.deep_view()), described.rows.deep_view(), true)
            ==> r matches Err(DescribeError::MissingCell),
        described.rows@.len() > 0 && rows_fit(layout_of(described.columns.deep_view()), described.rows.deep_view(), true)
            ==> (r matches Ok(s) && s@ == lines_text(
            pg_ddl_lines(table@, schema@, if_not_exists, layout_of(described.columns.deep_view()), described.rows.deep_view()),
        )),
{
    if described.rows.len() == 0 {
        return Err(DescribeError::NoColumns(String::from_str(table)));
    }
    let l = describe_layout(&described.columns);
    if !check_rows_fit(&l, &described.rows, true) {
        return Err(DescribeError::MissingCell);
    }
    Ok(emit_pg_ddl(table, schema, if_not_exists, &l, &described.rows))
}

/// What `export-all` does with one table.
pub enum ExportStep {
    /// Its DDL goes into the document.
    Keep(String),
    /// It is left out, with this warning.
    Skip(String),
}

/// `export-all` for one table: `described` is its `DESCRIBE` result, or the
/// error of that query.  A description whose rows lack a cell the layout
/// points at is refused.
pub fn export_all_step(table: &str, schema: &str, described: Result<&ResultSet, &str>) -> (r: Result<ExportStep, DescribeError>)
    ensures
        described matches Err(e) ==> (r matches Ok(ExportStep::Skip(m)) && m@ == "skipping '"@ + table@ + "': "@ + e@),
        described is Ok && described.unwrap().rows@.len() == 0 ==> (r matches Ok(ExportStep::Skip(m)) && m@
            == "skipping '"@ + table@ + "': "@ + "Table '"@ + table@ + "' not found or has no columns."@),
        described is Ok && described.unwrap().rows@.len() > 0 && !rows_fit(
            layout_of(described.unwrap().columns.deep_view()),
            described.unwrap().rows.deep_view(),
            true,
        ) ==> r matches Err(DescribeError::MissingCell),
        described is Ok && described.unwrap().rows@.len() > 0 && rows_fit(
            layout_of(described.unwrap().columns.deep_view()),
            described.unwrap().rows.deep_view(),
            true,
        ) ==> (r matches Ok(ExportStep::Keep(s)) && s@ == lines_text(
            pg_ddl_lines(
                table@,
                schema@,
                true,
                layout_of(described.unwrap().columns.deep_view()),
                described.unwrap().rows.deep_view(),
            ),
        )),
{
    let mut m = String::from_str("skipping '");
    push_str(&mut m, table);
    push_str(&mut m, "': ");
    match described {
        Err(e) => {
            push_str(&mut m, e);
            Ok(ExportStep::Skip(m))
        },
        Ok(d) => match export_table(table, schema, true, d) {
            Ok(ddl) => Ok(ExportStep::Keep(ddl)),
            Err(DescribeError::NoColumns(t)) => {
                let msg = DescribeError::NoColumns(t).message();
                push_str(&mut m, msg.as_str());
                Ok(ExportStep::Skip(m))
            },
            Err(DescribeError::MissingCell) => Err(DescribeError::MissingCell),
        },
    }
}

/// The header of `export-all`.
pub open spec fn export_all_header(db: Seq<char>) -> Seq<char> {
    "-- Exported from Doris database '"@ + db + "'\n\n"@
}

/// Concatenation of `parts`, each followed by a newline.
pub open spec fn each_followed_by_newline(parts: Seq<Seq<char>>) -> Seq<char>
    decreases parts.len(),
{
    if parts.len() == 0 {
        Seq::empty()
    } else {
        each_followed_by_newline(parts.drop_last()) + parts.last() + "\n"@
    }
}

/// The `export-all` document: a header, then the DDL of each table that could
/// be exported, each followed by an empty line.
pub fn export_all_document(db: &str, ddls: &Vec<String>) -> (r: String)
    ensures
        r@ == export_all_header(db@) + each_followed_by_newline(ddls.deep_view()),
{
    let ghost dv = ddls.deep_view();
    let mut r = String::from_str("-- Exported from Doris database '");
    push_str(&mut r, db);
    push_str(&mut r, "'\n\n");
    let mut i: usize = 0;
    assert(dv.take(0) =~= Seq::<Seq<char>>::empty());
    while i < ddls.len()
        invariant
            i <= ddls@.len(),
            dv == ddls.deep_view(),
            r@ == export_all_header(db@) + each_followed_by_newline(dv.take(i as int)),
        decreases ddls@.len() - i,
    {
        push_str(&mut r, ddls[i].as_str());
        push_str(&mut r, "\n");
        i += 1;
        assert(dv.take(i as int).drop_last() =~= dv.take(i - 1));
    }
    assert(dv.take(dv.len() as int) =~= dv);
    r
}

/// What `compare` shows.
pub struct Comparison {
    /// `--- doris/<table>` and `+++ local/<file>`.
    pub header: Vec<String>,
    /// The changed lines as shown, with their kinds.
    pub lines: Vec<(ChangeKind, String)>,
    /// No line deleted or inserted.
    pub identical: bool,
}

/// `compare`: the diff from the generated DDL to the local file, both trimmed.
pub fn compare_ddl(table: &str, file: &str, generated: &str, local: &str) -> (c: Comparison)
    ensures
        c.header@.len() == 2,
        c.header@[0]@ == "--- doris/"@ + table@,
        c.header@[1]@ == "+++ local/"@ + file@,
        c.lines@.len() == line_changes(trim(generated@), trim(local@)).len(),
        forall|i: int|
            0 <= i < c.lines@.len() ==> (#[trigger] c.lines@[i]).0 == line_changes(
                trim(generated@),
                trim(local@),
            )[i].0 && c.lines@[i].1@ == shown_change(line_changes(trim(generated@), trim(local@))[i]),
        c.identical == !exists|i: int|
            0 <= i < line_changes(trim(generated@), trim(local@)).len() && (#[trigger] line_changes(
                trim(generated@),
                trim(local@),
            )[i]).0 != ChangeKind::Equal,
{
    let old_text = trim_str(generated);
    let new_text = trim_str(local);
    let changes = diff_lines(old_text.as_str(), new_text.as_str());
    let ghost lc = line_changes(trim(generated@), trim(local@));
    assert forall|i: int| 0 <= i < changes@.len() implies (changes@[i].0, changes@[i].1@) == lc[i] by {
        assert(changes_view(changes@)[i] == (changes@[i].0, changes@[i].1@));
    }
    let lines = show_changes(&changes);
    let differs = has_changes(&changes);
    proof {
        if differs {
            let i = choose|i: int| 0 <= i < changes@.len() && (#[trigger] changes@[i]).0 != ChangeKind::Equal;
            assert(lc[i].0 != ChangeKind::Equal);
        } else {
            assert forall|i: int| 0 <= i < lc.len() implies !((#[trigger] lc[i]).0 != ChangeKind::Equal) by {
                assert(changes@[i].0 == ChangeKind::Equal);
            }
        }
    }
    let mut h1 = String::from_str("--- doris/");
    push_str(&mut h1, table);
    let mut h2 = String::from_str("+++ local/");
    push_str(&mut h2, file);
    let mut header = Vec::new();
    header.push(h1);
    header.push(h2);
    Comparison { header, lines, identical: !differs }
}

} // verus!
