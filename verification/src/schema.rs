//! The `schema` command: splitting a DDL file into statements, previewing
//! them, and comparing a local DDL file with the live table.
use vstd::prelude::*;
use vstd::utf8::{encode_utf8, decode_utf8, is_char_boundary, encode_utf8_decode_utf8};
use vstd::string::StringSliceAdditionalSpecFns;
use crate::text::{chars_of, string_of, find_char, trim_bounds, trim_str, str_eq, push_str, u64_to_string, trim, first_index_of, lemma_first_index_of, decimal};
use crate::output::ResultSet;
use crate::diff::{ChangeKind, diff_lines, show_changes, line_changes, shown_change, changes_view};

verus! {

/// The schema subcommands.
#[allow(inconsistent_fields)]
pub enum SchemaCmd {
    /// List all databases.
    ListDbs,
    /// List tables in a database.
    ListTables { db: Option<String> },
    /// Show column definitions for a table.
    Describe { table: String, db: Option<String> },
    /// Apply DDL statements from a file.
    Apply { file: String, dry_run: bool },
    /// Diff a local DDL file against the live CREATE TABLE.
    Diff { table: String, file: String, db: Option<String> },
}

/// The statements of a DDL text: the pieces between `;`s, trimmed, the empty
/// ones dropped.
pub open spec fn sql_statements(s: Seq<char>) -> Seq<Seq<char>>
    decreases s.len(),
{
    let k = first_index_of(s, ';');
    let piece = trim(s.take(k as int));
    let rest = if k < s.len() {
        sql_statements(s.skip(k as int + 1))
    } else {
        Seq::empty()
    };
    if piece.len() > 0 {
        seq![piece] + rest
    } else {
        rest
    }
}

proof fn lemma_first_index_bound(s: Seq<char>, c: char)
    ensures
        first_index_of(s, c) <= s.len(),
    decreases s.len(),
{
    if s.len() > 0 && s[0] != c {
        lemma_first_index_bound(s.drop_first(), c);
    }
}

/// `sql.split(';').map(str::trim).filter(|s| !s.is_empty())`.
pub fn split_statements(sql: &str) -> (r: Vec<String>)
    ensures
        r.deep_view() == sql_statements(sql@),
{
    let v = chars_of(sql);
    let n = v.len();
    let mut r: Vec<String> = Vec::new();
    let mut start: usize = 0;
    let mut done = false;
    assert(v@.skip(0) =~= v@);
    while !done
        invariant
            start <= n,
            n == v@.len(),
            v@ == sql@,
            !done ==> sql_statements(sql@) == r.deep_view() + sql_statements(v@.skip(start as int)),
            done ==> sql_statements(sql@) == r.deep_view(),
        decreases n - start + (if done { 0int } else { 1int }),
    {
        let ghost rest = v@.skip(start as int);
        let k = find_char(&v, start, n, ';');
        proof {
            assert(rest =~= v@.subrange(start as int, n as int));
            assert forall|i: int| 0 <= i < k - start implies rest[i] != ';' by {
                assert(rest[i] == v@[start + i]);
            }
            if k < n {
                assert(rest[k - start] == v@[k as int]);
            }
            lemma_first_index_of(rest, ';', k - start);
            assert(rest.take(k - start) =~= v@.subrange(start as int, k as int));
        }
        let (a, b) = trim_bounds(&v, start, k);
        let ghost before = r.deep_view();
        if a < b {
            let piece = string_of(&v, a, b);
            let ghost pv = piece@;
            r.push(piece);
            assert(r.deep_view() =~= before.push(pv));
            assert(before.push(pv) + sql_statements(if k < n { rest.skip(k - start + 1) } else {
                Seq::empty()
            }) =~= before + (seq![pv] + sql_statements(if k < n { rest.skip(k - start + 1) } else {
                Seq::empty()
            })));
        }
        if k < n {
            assert(rest.skip(k - start + 1) =~= v@.skip(k + 1));
            start = k + 1;
        } else {
            assert(sql_statements(rest) == (if a < b { seq![v@.subrange(a as int, b as int)] } else {
                Seq::<Seq<char>>::empty()
            }) + Seq::<Seq<char>>::empty());
            assert(r.deep_view() =~= before + sql_statements(rest));
            done = true;
        }
    }
    r
}

/// `<n> statement(s) in '<file>'`.
pub fn apply_summary(count: usize, file: &str) -> (m: String)
    ensures
        m@ == decimal(count as nat) + " statement(s) in '"@ + file@ + "'"@,
{
    let mut m = u64_to_string(count as u64);
    push_str(&mut m, " statement(s) in '");
    push_str(&mut m, file);
    push_str(&mut m, "'");
    m
}

/// `[<n>]`, the label of the statement at position `i` (counting from one).
pub fn statement_label(i: usize) -> (m: String)
    requires
        i < u64::MAX,
    ensures
        m@ == "["@ + decimal(i as nat + 1) + "]"@,
{
    let mut m = String::from_str("[");
    let n = u64_to_string(i as u64 + 1);
    push_str(&mut m, n.as_str());
    push_str(&mut m, "]");
    m
}

/// `Statement <n> failed: <error>`.
pub fn statement_failed(i: usize, error: &str) -> (m: String)
    requires
        i < u64::MAX,
    ensures
        m@ == "Statement "@ + decimal(i as nat + 1) + " failed: "@ + error@,
{
    let mut m = String::from_str("Statement ");
    let n = u64_to_string(i as u64 + 1);
    push_str(&mut m, n.as_str());
    push_str(&mut m, " failed: ");
    push_str(&mut m, error);
    m
}

/// The length in bytes of a string, as `str::len` gives it.
/// What `schema apply` does once statement `i` has run: report it and go on
/// to the next, or stop with the failure.
pub enum ApplyStep {
    /// The statement's label; the next statement runs.
    Next(String),
    /// The failure message; no further statement runs.
    Stop(String),
}

/// The step after statement `i`, given the error it raised, if any.
pub fn apply_step(i: usize, failure: Option<&str>) -> (s: ApplyStep)
    requires
        i < u64::MAX,
    ensures
        match failure {
            None => s matches ApplyStep::Next(m) && m@ == "["@ + decimal(i as nat + 1) + "]"@,
            Some(e) => s matches ApplyStep::Stop(m) && m@ == "Statement "@ + decimal(i as nat + 1)
                + " failed: "@ + e@,
        },
{
    match failure {
        None => ApplyStep::Next(statement_label(i)),
        Some(e) => ApplyStep::Stop(statement_failed(i, e)),
    }
}

pub open spec fn byte_len(s: Seq<char>) -> int {
    (encode_utf8(s).len() as usize) as int
}

/// A statement can be previewed when it is at most 120 bytes long, or its
/// 120th byte ends a character (else slicing it there panics).
pub open spec fn previewable(stmt: Seq<char>) -> bool {
    byte_len(stmt) <= 120 || is_char_boundary(encode_utf8(stmt), 120)
}

/// The first 120 bytes of a statement.
pub open spec fn preview_of(stmt: Seq<char>) -> Seq<char> {
    if byte_len(stmt) <= 120 {
        stmt
    } else {
        decode_utf8(encode_utf8(stmt).take(120))
    }
}

/// The dry-run line of statement `i`: its label, its first 120 bytes, and an
/// ellipsis when it is longer.
pub open spec fn preview_line_spec(i: nat, stmt: Seq<char>) -> Seq<char> {
    "["@ + decimal(i + 1) + "] "@ + preview_of(stmt) + (if byte_len(stmt) > 120 {
        " …"@
    } else {
        Seq::empty()
    })
}

pub fn can_preview(stmt: &str) -> (b: bool)
    ensures
        b == previewable(stmt@),
{
    stmt.len() <= 120 || stmt.is_char_boundary(120)
}

pub fn preview_line(i: usize, stmt: &str) -> (m: String)
    requires
        i < u64::MAX,
        previewable(stmt@),
    ensures
        m@ == preview_line_spec(i as nat, stmt@),
{
    proof {
        reveal_strlit("");
        encode_utf8_decode_utf8(stmt@);
    }
    let mut m = String::from_str("[");
    let n = u64_to_string(i as u64 + 1);
    push_str(&mut m, n.as_str());
    push_str(&mut m, "] ");
    if stmt.len() <= 120 {
        push_str(&mut m, stmt);
    } else {
        let (head, _) = stmt.split_at(120);
        proof {
            encode_utf8_decode_utf8(head@);
            assert(head.spec_bytes() =~= encode_utf8(stmt@).take(120));
        }
        push_str(&mut m, head);
        push_str(&mut m, " …");
    }
    m
}

/// The live DDL in a `SHOW CREATE TABLE` result: the second cell of the
/// first row, else empty.
pub open spec fn live_ddl(rows: Seq<Seq<Seq<char>>>) -> Seq<char> {
    if rows.len() > 0 && rows[0].len() > 1 {
        rows[0][1]
    } else {
        Seq::empty()
    }
}

/// What `schema diff` shows.
pub enum SchemaDiff {
    /// The trimmed texts are equal.
    Identical,
    /// `--- live/<table>` and `+++ local/<file>`, then the changed lines as
    /// shown, with their kinds.
    Differs { header: Vec<String>, lines: Vec<(ChangeKind, String)> },
}

/// `schema diff`: the local file against the live `CREATE TABLE`.
pub fn schema_diff(table: &str, file: &str, local: &str, live: &ResultSet) -> (d: SchemaDiff)
    ensures
        trim(local@) == trim(live_ddl(live.rows.deep_view())) <==> d is Identical,
        d matches SchemaDiff::Differs { header, lines } ==> {
            let lc = line_changes(trim(live_ddl(live.rows.deep_view())), trim(local@));
            &&& header@.len() == 2
            &&& header@[0]@ == "--- live/"@ + table@
            &&& header@[1]@ == "+++ local/"@ + file@
            &&& lines@.len() == lc.len()
            &&& forall|i: int|
                0 <= i < lines@.len() ==> (#[trigger] lines@[i]).0 == lc[i].0 && lines@[i].1@
                    == shown_change(lc[i])
        },
{
    proof {
        reveal_strlit("");
    }
    let ghost rv = live.rows.deep_view();
    let live_text = if live.rows.len() > 0 && live.rows[0].len() > 1 {
        assert(rv[0] == live.rows@[0].deep_view());
        live.rows[0][1].clone()
    } else {
        String::new()
    };
    assert(live_text@ == live_ddl(rv));
    let l = trim_str(live_text.as_str());
    let t = trim_str(local);
    if str_eq(t.as_str(), l.as_str()) {
        return SchemaDiff::Identical;
    }
    let changes = diff_lines(l.as_str(), t.as_str());
    let ghost lc = line_changes(l@, t@);
    assert forall|i: int| 0 <= i < changes@.len() implies (changes@[i].0, changes@[i].1@) == lc[i] by {
        assert(changes_view(changes@)[i] == (changes@[i].0, changes@[i].1@));
    }
    let lines = show_changes(&changes);
    let mut h1 = String::from_str("--- live/");
    push_str(&mut h1, table);
    let mut h2 = String::from_str("+++ local/");
    push_str(&mut h2, file);
    let mut header = Vec::new();
    header.push(h1);
    header.push(h2);
    SchemaDiff::Differs { header, lines }
}

} // verus!
