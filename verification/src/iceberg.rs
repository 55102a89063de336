//! Apache Iceberg bridge: catalog metadata read through Doris.
use vstd::prelude::*;
use crate::text::{push_str, i64_to_string, u64_to_string, to_lowercase, chars_of, lower_case, decimal, decimal_int};
use crate::output::{Format, ResultSet};
use crate::statements::on_identifier;

verus! {

/// The Iceberg subcommands.
#[allow(inconsistent_fields)]
pub enum IcebergCmd {
    /// List all Iceberg catalogs registered in Doris.
    Catalogs,
    /// List databases inside an Iceberg catalog.
    Databases { catalog: String },
    /// List tables inside an Iceberg catalog database.
    Tables { catalog: String, database: String },
    /// Show snapshots for an Iceberg table (`catalog.database.table`).
    Snapshots { table: String },
    /// Show partitions for an Iceberg table.
    Partitions { table: String },
    /// Display the schema of an Iceberg table.
    Schema { table: String },
    /// Time-travel query on a snapshot.
    TimeTravel { table: String, snapshot_id: i64, limit: u32, format: Format },
}

/// Whether `p` occurs in `s`.
pub open spec fn contains_seq(s: Seq<char>, p: Seq<char>) -> bool {
    exists|i: int| 0 <= i <= s.len() - p.len() && #[trigger] s.subrange(i, i + p.len()) == p
}

/// `str::contains` with a string pattern.
pub fn contains_str(s: &str, p: &str) -> (b: bool)
    ensures
        b == contains_seq(s@, p@),
{
    let v = chars_of(s);
    let w = chars_of(p);
    if w.len() == 0 {
        assert(s@.subrange(0, 0 + p@.len() as int) =~= p@);
        return true;
    }
    if w.len() > v.len() {
        return false;
    }
    let mut i: usize = 0;
    while i <= v.len() - w.len()
        invariant
            1 <= w@.len() <= v@.len(),
            v@ == s@,
            w@ == p@,
            i <= v@.len() - w@.len() + 1,
            forall|j: int| 0 <= j < i ==> #[trigger] v@.subrange(j, j + w@.len()) != w@,
        decreases v@.len() - w@.len() + 1 - i,
    {
        if crate::text::seq_eq(&v, i, i + w.len(), &w) {
            return true;
        }
        i += 1;
    }
    false
}

/// Index of the first column whose lower-case name contains `type`.
pub open spec fn type_column_from(columns: Seq<Seq<char>>, i: int) -> Option<int>
    decreases columns.len() - i,
{
    if i < 0 || i >= columns.len() {
        None
    } else if contains_seq(lower_case(columns[i]), "type"@) {
        Some(i)
    } else {
        type_column_from(columns, i + 1)
    }
}

/// Whether a catalog row is an Iceberg one: its type cell, lower-cased,
/// contains `iceberg`; a row without that cell is not.
pub open spec fn is_iceberg_row(row: Seq<Seq<char>>, type_idx: int) -> bool {
    type_idx < row.len() && contains_seq(lower_case(row[type_idx]), "iceberg"@)
}

/// The rows of `SHOW CATALOGS` that are Iceberg catalogs; all of them when
/// no column holds a type.
pub open spec fn iceberg_rows(columns: Seq<Seq<char>>, rows: Seq<Seq<Seq<char>>>) -> Seq<Seq<Seq<char>>>
    decreases rows.len(),
{
    match type_column_from(columns, 0) {
        None => rows,
        Some(k) => if rows.len() == 0 {
            rows
        } else {
            let before = iceberg_rows(columns, rows.drop_last());
            if is_iceberg_row(rows.last(), k) {
                before.push(rows.last())
            } else {
                before
            }
        },
    }
}

fn type_column(columns: &Vec<String>) -> (r: Option<usize>)
    ensures
        match r {
            Some(k) => type_column_from(columns.deep_view(), 0) == Some(k as int),
            None => type_column_from(columns.deep_view(), 0) is None,
        },
{
    let ghost cols = columns.deep_view();
    let mut i: usize = 0;
    while i < columns.len()
        invariant
            i <= columns@.len(),
            cols == columns.deep_view(),
            type_column_from(cols, 0) == type_column_from(cols, i as int),
        decreases columns@.len() - i,
    {
        let lower = to_lowercase(columns[i].as_str());
        assert(cols[i as int] == columns@[i as int]@);
        if contains_str(lower.as_str(), "type") {
            return Some(i);
        }
        i += 1;
    }
    None
}

/// `SHOW CATALOGS` narrowed to Iceberg catalogs.
pub fn filter_iceberg_catalogs(catalogs: ResultSet) -> (r: ResultSet)
    ensures
        r.columns == catalogs.columns,
        r.rows.deep_view() == iceberg_rows(catalogs.columns.deep_view(), catalogs.rows.deep_view()),
{
    let ghost cols = catalogs.columns.deep_view();
    let ghost rv = catalogs.rows.deep_view();
    match type_column(&catalogs.columns) {
        None => catalogs,
        Some(k) => {
            let mut kept: Vec<Vec<String>> = Vec::new();
            let mut i: usize = 0;
            while i < catalogs.rows.len()
                invariant
                    i <= catalogs.rows@.len(),
                    rv == catalogs.rows.deep_view(),
                    cols == catalogs.columns.deep_view(),
                    type_column_from(cols, 0) == Some(k as int),
                    kept.deep_view() == iceberg_rows(cols, rv.take(i as int)),
                decreases catalogs.rows@.len() - i,
            {
                let row = &catalogs.rows[i];
                assert(rv.take(i + 1).drop_last() =~= rv.take(i as int));
                assert(rv.take(i + 1).last() == row.deep_view());
                let keep = if k < row.len() {
                    let lower = to_lowercase(row[k].as_str());
                    assert(row.deep_view()[k as int] == row@[k as int]@);
                    contains_str(lower.as_str(), "iceberg")
                } else {
                    false
                };
                if keep {
                    let ghost before = kept.deep_view();
                    let copy = crate::text::clone_strings(row);
                    assert(copy.deep_view() =~= row.deep_view());
                    kept.push(copy);
                    assert(kept.deep_view() =~= before.push(row.deep_view()));
                }
                i += 1;
            }
            assert(rv.take(rv.len() as int) =~= rv);
            ResultSet { columns: catalogs.columns, rows: kept }
        },
    }
}

/// What `catalogs` prints when there is no Iceberg catalog.
pub fn no_catalogs_message() -> (m: &'static str)
    ensures
        m@ == "No Iceberg catalogs registered. Use `CREATE CATALOG` in Doris to add one."@,
{
    "No Iceberg catalogs registered. Use `CREATE CATALOG` in Doris to add one."
}

/// `SHOW DATABASES FROM `catalog``.
pub fn databases_statement(catalog: &str) -> (s: String)
    ensures
        s@ == on_identifier("SHOW DATABASES FROM "@, catalog@),
{
    let mut s = String::from_str("SHOW DATABASES FROM ");
    push_str(&mut s, "`");
    push_str(&mut s, catalog);
    push_str(&mut s, "`");
    s
}

/// `SHOW TABLES FROM `catalog`.`database``.
pub fn tables_statement(catalog: &str, database: &str) -> (s: String)
    ensures
        s@ == on_identifier("SHOW TABLES FROM "@, catalog@) + "."@ + on_identifier(""@, database@),
{
    proof {
        reveal_strlit("");
    }
    let mut s = String::from_str("SHOW TABLES FROM ");
    push_str(&mut s, "`");
    push_str(&mut s, catalog);
    push_str(&mut s, "`");
    push_str(&mut s, ".");
    push_str(&mut s, "`");
    push_str(&mut s, database);
    push_str(&mut s, "`");
    s
}

/// The `iceberg_meta` table function for one kind of metadata.
pub open spec fn meta_query(table: Seq<char>, kind: Seq<char>) -> Seq<char> {
    "SELECT * FROM iceberg_meta('table' = '"@ + table + "', 'query_type' = '"@ + kind + "')"@
}

/// The metadata query of `table`; `kind` is `snapshots`, `partitions` or `schema`.
pub fn meta_statement(table: &str, kind: &str) -> (s: String)
    ensures
        s@ == meta_query(table@, kind@),
{
    let mut s = String::from_str("SELECT * FROM iceberg_meta('table' = '");
    push_str(&mut s, table);
    push_str(&mut s, "', 'query_type' = '");
    push_str(&mut s, kind);
    push_str(&mut s, "')");
    s
}

/// `<verb> <table>`, the unquoted fallbacks of `snapshots` and `schema`.
pub fn plain_statement(verb: &str, table: &str) -> (s: String)
    ensures
        s@ == verb@ + table@,
{
    let mut s = String::from_str(verb);
    push_str(&mut s, table);
    s
}

/// The time-travel query.
pub open spec fn time_travel_query(table: Seq<char>, snapshot_id: i64, limit: u32) -> Seq<char> {
    "SELECT * FROM "@ + table + " FOR VERSION AS OF "@ + decimal_int(snapshot_id as int) + " LIMIT "@
        + decimal(limit as nat)
}

pub fn time_travel_statement(table: &str, snapshot_id: i64, limit: u32) -> (s: String)
    ensures
        s@ == time_travel_query(table@, snapshot_id, limit),
{
    let mut s = String::from_str("SELECT * FROM ");
    push_str(&mut s, table);
    push_str(&mut s, " FOR VERSION AS OF ");
    let id = i64_to_string(snapshot_id);
    push_str(&mut s, id.as_str());
    push_str(&mut s, " LIMIT ");
    let l = u64_to_string(limit as u64);
    push_str(&mut s, l.as_str());
    s
}

} // verus!
