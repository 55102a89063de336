//! The `load` command: Stream Load requests and what is said of their result.
use vstd::prelude::*;
use crate::text::{chars_of, string_of, find_char, push_str, u64_to_string, i64_to_string, first_index_of, lemma_first_index_of, decimal, decimal_int};

verus! {

/// The load subcommands.
#[allow(inconsistent_fields)]
pub enum LoadCmd {
    /// Stream Load a file into a table given as `db.table`.
    Stream { table: String, file: String, format: String, column_separator: String, label: Option<String> },
    /// Check load job status.
    Status { label: String },
    /// Cancel a load job.
    Cancel { label: String },
}

/// `db.table` split at its first dot; none without a dot.
pub open spec fn table_ref(t: Seq<char>) -> Option<(Seq<char>, Seq<char>)> {
    let k = first_index_of(t, '.');
    if k < t.len() {
        Some((t.take(k as int), t.skip(k as int + 1)))
    } else {
        None
    }
}

/// The database and table of `db.table` (`splitn(2, '.')`).
pub fn parse_table_ref(table: &str) -> (r: Option<(String, String)>)
    ensures
        match r {
            Some((d, t)) => table_ref(table@) == Some((d@, t@)),
            None => table_ref(table@) is None,
        },
{
    let v = chars_of(table);
    let k = find_char(&v, 0, v.len(), '.');
    proof {
        assert(v@.subrange(0, v@.len() as int) =~= v@);
        lemma_first_index_of(v@, '.', k as int);
    }
    if k == v.len() {
        return None;
    }
    let db = string_of(&v, 0, k);
    let tbl = string_of(&v, k + 1, v.len());
    assert(db@ =~= v@.take(k as int));
    assert(tbl@ =~= v@.skip(k + 1));
    Some((db, tbl))
}

/// The message when `--table` is not `db.table`.
pub fn table_ref_error() -> (m: &'static str)
    ensures
        m@ == "--table must be in db.table format"@,
{
    "--table must be in db.table format"
}

/// Seconds since the Unix epoch, by `SystemTime::now().duration_since(UNIX_EPOCH)` and
/// `Duration::as_secs`; `None` where the clock reads earlier than the epoch. Nothing is
/// stated of the value: it is whatever the machine's clock reads at the call.
#[verifier::external_body]
fn epoch_seconds() -> (n: Option<u64>) {
    match std::time::SystemTime::now().duration_since(std::time::UNIX_EPOCH) {
        Ok(d) => Some(d.as_secs()),
        Err(_) => None,
    }
}

/// The clock part of a generated label: the seconds since the epoch, in decimal.
/// `None` where the clock reads earlier than the epoch.
pub fn chrono_label() -> (l: Option<String>)
    ensures
        match l {
            Some(s) => exists|n: nat| n <= u64::MAX && s@ == #[trigger] decimal(n),
            None => true,
        },
{
    match epoch_seconds() {
        Some(n) => {
            let s = u64_to_string(n);
            assert(s@ == decimal(n as nat));
            Some(s)
        },
        None => None,
    }
}

/// The label used when none is given: `dorisctl_<table>_<stamp>`.
pub fn default_label(table: &str, stamp: &str) -> (l: String)
    ensures
        l@ == "dorisctl_"@ + table@ + "_"@ + stamp@,
{
    let mut l = String::from_str("dorisctl_");
    push_str(&mut l, table);
    push_str(&mut l, "_");
    push_str(&mut l, stamp);
    l
}

/// `/api/<db>/<table>/_stream_load`.
pub fn stream_load_path(db: &str, table: &str) -> (p: String)
    ensures
        p@ == "/api/"@ + db@ + "/"@ + table@ + "/_stream_load"@,
{
    let mut p = String::from_str("/api/");
    push_str(&mut p, db);
    push_str(&mut p, "/");
    push_str(&mut p, table);
    push_str(&mut p, "/_stream_load");
    p
}

/// The headers of a Stream Load request, in order.
pub fn stream_load_headers(label: &str, format: &str, column_separator: &str) -> (h: Vec<(String, String)>)
    ensures
        h@.len() == 4,
        h@[0].0@ == "label"@ && h@[0].1@ == label@,
        h@[1].0@ == "format"@ && h@[1].1@ == format@,
        h@[2].0@ == "column_separator"@ && h@[2].1@ == column_separator@,
        h@[3].0@ == "Expect"@ && h@[3].1@ == "100-continue"@,
{
    let mut h = Vec::new();
    h.push((String::from_str("label"), String::from_str(label)));
    h.push((String::from_str("format"), String::from_str(format)));
    h.push((String::from_str("column_separator"), String::from_str(column_separator)));
    h.push((String::from_str("Expect"), String::from_str("100-continue")));
    h
}

/// `File not found: <file>`.
pub fn file_not_found(file: &str) -> (m: String)
    ensures
        m@ == "File not found: "@ + file@,
{
    let mut m = String::from_str("File not found: ");
    push_str(&mut m, file);
    m
}

/// The progress message of an upload: `Uploading → <table>`.
pub fn upload_message(table: &str) -> (m: String)
    ensures
        m@ == "Uploading → "@ + table@,
{
    let mut m = String::from_str("Uploading → ");
    push_str(&mut m, table);
    m
}

/// What the answer to a Stream Load request holds, as far as it is read:
/// `Status`, `NumberLoadedRows`, `NumberFilteredRows` and `ErrorURL`, each
/// absent when missing or of another JSON type.
pub struct LoadResponse {
    pub status: Option<String>,
    pub loaded_rows: Option<i64>,
    pub filtered_rows: Option<i64>,
    pub error_url: Option<String>,
}

pub open spec fn str_or(o: Option<String>, d: Seq<char>) -> Seq<char> {
    match o {
        Some(s) => s@,
        None => d,
    }
}

pub open spec fn int_or_zero(o: Option<i64>) -> int {
    match o {
        Some(n) => n as int,
        None => 0,
    }
}

/// The report of a successful Stream Load request.
pub open spec fn load_report(r: LoadResponse, label: Seq<char>) -> Seq<Seq<char>> {
    let status = str_or(r.status, "unknown"@);
    seq![
        "Status:       "@ + status,
        "Label:        "@ + label,
        "Loaded rows:  "@ + decimal_int(int_or_zero(r.loaded_rows)),
        "Filtered rows: "@ + decimal_int(int_or_zero(r.filtered_rows)),
    ] + if status == "Success"@ {
        Seq::empty()
    } else {
        seq!["Error URL:    "@ + str_or(r.error_url, "N/A"@)]
    }
}

fn str_or_exec(o: &Option<String>, d: &str) -> (s: String)
    ensures
        s@ == str_or(*o, d@),
{
    match o {
        Some(s) => s.clone(),
        None => String::from_str(d),
    }
}

/// The lines printed after a successful Stream Load request.
pub fn load_report_lines(r: &LoadResponse, label: &str) -> (lines: Vec<String>)
    ensures
        lines.deep_view() == load_report(*r, label@),
{
    let status = str_or_exec(&r.status, "unknown");
    let mut l0 = String::from_str("Status:       ");
    push_str(&mut l0, status.as_str());
    let mut l1 = String::from_str("Label:        ");
    push_str(&mut l1, label);
    let mut l2 = String::from_str("Loaded rows:  ");
    let n = i64_to_string(match r.loaded_rows {
        Some(n) => n,
        None => 0,
    });
    push_str(&mut l2, n.as_str());
    let mut l3 = String::from_str("Filtered rows: ");
    let f = i64_to_string(match r.filtered_rows {
        Some(n) => n,
        None => 0,
    });
    push_str(&mut l3, f.as_str());
    let mut lines = Vec::new();
    lines.push(l0);
    lines.push(l1);
    lines.push(l2);
    lines.push(l3);
    let ghost four = lines.deep_view();
    if !crate::text::str_eq(status.as_str(), "Success") {
        let mut l4 = String::from_str("Error URL:    ");
        let url = str_or_exec(&r.error_url, "N/A");
        push_str(&mut l4, url.as_str());
        let ghost lv = l4@;
        lines.push(l4);
        assert(lines.deep_view() =~= four.push(lv));
    }
    assert(lines.deep_view() =~= load_report(*r, label@));
    lines
}

/// The error of a failed Stream Load request: `Stream Load failed (<status>): <body>`.
pub fn load_failed(status: &str, body: &str) -> (m: String)
    ensures
        m@ == "Stream Load failed ("@ + status@ + "): "@ + body@,
{
    let mut m = String::from_str("Stream Load failed (");
    push_str(&mut m, status);
    push_str(&mut m, "): ");
    push_str(&mut m, body);
    m
}

/// `/api/_load_error_log?label=<label>`.
pub fn load_status_path(label: &str) -> (p: String)
    ensures
        p@ == "/api/_load_error_log?label="@ + label@,
{
    let mut p = String::from_str("/api/_load_error_log?label=");
    push_str(&mut p, label);
    p
}

/// What `load cancel` prints: how to cancel the job with a query.
pub fn cancel_hint(label: &str) -> (lines: Vec<String>)
    ensures
        lines@.len() == 2,
        lines@[0]@ == "To cancel broker load jobs, use:"@,
        lines@[1]@ == "  dorisctl query \"CANCEL LOAD WHERE LABEL = '"@ + label@ + "'\""@,
{
    let mut l1 = String::from_str("  dorisctl query \"CANCEL LOAD WHERE LABEL = '");
    push_str(&mut l1, label);
    push_str(&mut l1, "'\"");
    let mut lines = Vec::new();
    lines.push(String::from_str("To cancel broker load jobs, use:"));
    lines.push(l1);
    lines
}

} // verus!
