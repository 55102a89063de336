//! Result sets and the three ways of showing them: a table, JSON records and
//! CSV.
use vstd::prelude::*;
use crate::text::{push_str, u64_to_string, decimal, clone_strings};

verus! {

/// Output format of query results.
#[derive(Clone, Copy, PartialEq, Eq, Structural, Debug)]
pub enum Format {
    Table,
    Json,
    Csv,
}

impl Format {
    pub open spec fn name_spec(self) -> Seq<char> {
        match self {
            Format::Table => "table"@,
            Format::Json => "json"@,
            Format::Csv => "csv"@,
        }
    }

    /// The name the format goes by on the command line.
    pub fn name(&self) -> (n: &'static str)
        ensures
            n@ == self.name_spec(),
    {
        match self {
            Format::Table => "table",
            Format::Json => "json",
            Format::Csv => "csv",
        }
    }

    /// The format used when none is chosen.
    pub fn default_format() -> (f: Format)
        ensures
            f == Format::Table,
    {
        Format::Table
    }
}

/// The text of a `comfy_table` table in the `UTF8_FULL` preset with the given
/// header and rows.
pub uninterp spec fn table_layout(header: Seq<Seq<char>>, rows: Seq<Seq<Seq<char>>>) -> Seq<char>;

/// What a default `csv::Writer` writes for `records`, one after the other,
/// until the first one it refuses, and the message of that refusal.
pub uninterp spec fn csv_document(records: Seq<Seq<Seq<char>>>) -> (Seq<char>, Option<Seq<char>>);

/// Builds a `comfy_table::Table` with the `UTF8_FULL` preset, `header` and
/// `rows`, and returns what its `Display` prints: a function of the cells
/// alone, named and not stated (the table has no styling and no width set, so
/// the terminal plays no part).
#[verifier::external_body]
pub(crate) fn render_table(header: &Vec<String>, rows: &Vec<Vec<String>>) -> (t: String)
    ensures
        t@ == table_layout(header.deep_view(), rows.deep_view()),
{
    let mut table = comfy_table::Table::new();
    table.load_preset(comfy_table::presets::UTF8_FULL);
    table.set_header(header.clone());
    for row in rows {
        table.add_row(row.clone());
    }
    table.to_string()
}

/// Writes `records` with a default `csv::Writer` into memory and returns the
/// bytes written (as UTF-8 text) and the message of the first error.  The
/// writer is not flexible: `write_record` fails exactly when a record's
/// number of fields differs from the first record's; that is stated.  The
/// text itself is named, not stated.
#[verifier::external_body]
pub(crate) fn render_csv(records: &Vec<Vec<String>>) -> (r: (String, Option<String>))
    ensures
        (r.0@, match r.1 {
            Some(e) => Some(e@),
            None => None::<Seq<char>>,
        }) == csv_document(records.deep_view()),
        r.1 is None <==> forall|i: int|
            0 <= i < records@.len() ==> (#[trigger] records@[i]).len() == records@[0].len(),
{
    let mut wtr = csv::Writer::from_writer(Vec::new());
    let mut err = None;
    for record in records {
        if let Err(e) = wtr.write_record(record) {
            err = Some(e.to_string());
            break;
        }
    }
    let bytes = wtr.into_inner().unwrap_or_default();
    (String::from_utf8_lossy(&bytes).into_owned(), err)
}

/// A simple result set with column names and rows.
pub struct ResultSet {
    pub columns: Vec<String>,
    pub rows: Vec<Vec<String>>,
}

/// Pairs of column name and value for one row; a row shorter or longer than
/// the header is cut to the shorter of the two.
pub open spec fn record_of(columns: Seq<Seq<char>>, row: Seq<Seq<char>>) -> Seq<(Seq<char>, Seq<char>)> {
    Seq::new(
        if columns.len() < row.len() { columns.len() } else { row.len() },
        |i: int| (columns[i], row[i]),
    )
}

/// What the table format shows.
pub open spec fn table_output(columns: Seq<Seq<char>>, rows: Seq<Seq<Seq<char>>>) -> Seq<char> {
    if rows.len() == 0 {
        "(no rows)\n"@
    } else {
        table_layout(columns, rows) + "\n"@ + decimal(rows.len()) + " row(s)\n"@
    }
}

/// A rendered table followed by its row count.
pub fn with_row_count(layout: String, rows: usize) -> (t: String)
    ensures
        t@ == layout@ + "\n"@ + decimal(rows as nat) + " row(s)\n"@,
{
    let mut t = layout;
    push_str(&mut t, "\n");
    let n = u64_to_string(rows as u64);
    push_str(&mut t, n.as_str());
    push_str(&mut t, " row(s)\n");
    t
}

/// What a result set gives in one of the formats.  JSON records are handed
/// over as name/value pairs; turning them into JSON text is serde's work.
pub enum Rendering {
    Text(String),
    JsonRecords(Vec<Vec<(String, String)>>),
    /// CSV that stopped at a record of the wrong length: what was written,
    /// then why it stopped.
    CsvError(String, String),
}

impl ResultSet {
    pub fn new(columns: Vec<String>, rows: Vec<Vec<String>>) -> (r: ResultSet)
        ensures
            r.columns == columns,
            r.rows == rows,
    {
        ResultSet { columns, rows }
    }

    /// The table format: a table and a row count, or `(no rows)`.
    pub fn table_text(&self) -> (t: String)
        ensures
            t@ == table_output(self.columns.deep_view(), self.rows.deep_view()),
    {
        if self.rows.len() == 0 {
            return String::from_str("(no rows)\n");
        }
        let layout = render_table(&self.columns, &self.rows);
        with_row_count(layout, self.rows.len())
    }

    /// One record per row, pairing column names with values.
    pub fn json_records(&self) -> (r: Vec<Vec<(String, String)>>)
        ensures
            r@.len() == self.rows@.len(),
            forall|i: int|
                0 <= i < r@.len() ==> (#[trigger] r@[i]).deep_view() == record_of(
                    self.columns.deep_view(),
                    self.rows@[i].deep_view(),
                ),
    {
        let mut r: Vec<Vec<(String, String)>> = Vec::new();
        let mut i: usize = 0;
        while i < self.rows.len()
            invariant
                i <= self.rows@.len(),
                r@.len() == i,
                forall|k: int|
                    0 <= k < i ==> (#[trigger] r@[k]).deep_view() == record_of(
                        self.columns.deep_view(),
                        self.rows@[k].deep_view(),
                    ),
            decreases self.rows@.len() - i,
        {
            let row = &self.rows[i];
            let mut rec: Vec<(String, String)> = Vec::new();
            let mut j: usize = 0;
            while j < self.columns.len() && j < row.len()
                invariant
                    j <= self.columns@.len(),
                    j <= row@.len(),
                    rec@.len() == j,
                    forall|k: int|
                        0 <= k < j ==> (#[trigger] rec@[k]).0@ == self.columns@[k]@ && rec@[k].1@
                            == row@[k]@,
                decreases self.columns@.len() - j,
            {
                rec.push((self.columns[j].clone(), row[j].clone()));
                j += 1;
            }
            assert(rec.deep_view() =~= record_of(self.columns.deep_view(), row.deep_view()));
            r.push(rec);
            i += 1;
        }
        r
    }

    /// The CSV format: the header line, then one line per row.
    pub fn csv_text(&self) -> (r: (String, Option<String>))
        ensures
            (r.0@, match r.1 {
                Some(e) => Some(e@),
                None => None::<Seq<char>>,
            }) == csv_document(seq![self.columns.deep_view()] + self.rows.deep_view()),
            r.1 is None <==> forall|i: int|
                0 <= i < self.rows@.len() ==> (#[trigger] self.rows@[i]).len() == self.columns@.len(),
    {
        let mut records: Vec<Vec<String>> = Vec::new();
        let header = clone_strings(&self.columns);
        assert(header.deep_view() =~= self.columns.deep_view());
        records.push(header);
        let ghost rows = self.rows.deep_view();
        let mut i: usize = 0;
        while i < self.rows.len()
            invariant
                i <= self.rows@.len(),
                rows == self.rows.deep_view(),
                records.deep_view() =~= seq![self.columns.deep_view()] + rows.take(i as int),
            decreases self.rows@.len() - i,
        {
            let copy = clone_strings(&self.rows[i]);
            assert(copy.deep_view() =~= rows[i as int]);
            let ghost prev = records.deep_view();
            let ghost copy_view = copy.deep_view();
            records.push(copy);
            assert(records.deep_view() =~= prev.push(copy_view));
            i += 1;
            assert(records.deep_view() =~= seq![self.columns.deep_view()] + rows.take(i as int));
        }
        assert(rows.take(rows.len() as int) =~= rows);
        let r = render_csv(&records);
        proof {
            let recs = records.deep_view();
            assert forall|k: int| 0 <= k < records@.len() implies (#[trigger] records@[k]).len()
                == recs[k].len() by {}
            if r.1 is None {
                assert forall|k: int| 0 <= k < self.rows@.len() implies (
                #[trigger] self.rows@[k]).len() == self.columns@.len() by {
                    assert(records@[k + 1].len() == recs[k + 1].len());
                    assert(records@[0].len() == recs[0].len());
                    assert(recs[k + 1] == rows[k]);
                }
            } else {
                let k = choose|k: int|
                    0 <= k < records@.len() && !((#[trigger] records@[k]).len() == records@[0].len());
                assert(records@[k].len() == recs[k].len());
                assert(records@[0].len() == recs[0].len());
                assert(recs[k] == rows[k - 1]);
                assert(self.rows@[k - 1].len() == rows[k - 1].len());
            }
        }
        r
    }

    /// What the chosen format shows for this result set.
    pub fn render(&self, format: Format) -> (r: Rendering)
        ensures
            format == Format::Table ==> (r matches Rendering::Text(t) && t@ == table_output(
                self.columns.deep_view(),
                self.rows.deep_view(),
            )),
            format == Format::Json ==> (r matches Rendering::JsonRecords(recs) && recs@.len()
                == self.rows@.len() && forall|i: int|
                0 <= i < recs@.len() ==> (#[trigger] recs@[i]).deep_view() == record_of(
                    self.columns.deep_view(),
                    self.rows@[i].deep_view(),
                )),
            format == Format::Csv ==> match r {
                Rendering::Text(t) => csv_document(seq![self.columns.deep_view()] + self.rows.deep_view())
                    == (t@, None::<Seq<char>>),
                Rendering::CsvError(t, e) => csv_document(
                    seq![self.columns.deep_view()] + self.rows.deep_view(),
                ) == (t@, Some(e@)),
                _ => false,
            },
            format == Format::Csv ==> ((r is CsvError) <==> exists|i: int|
                0 <= i < self.rows@.len() && (#[trigger] self.rows@[i]).len() != self.columns@.len()),
    {
        match format {
            Format::Table => Rendering::Text(self.table_text()),
            Format::Json => Rendering::JsonRecords(self.json_records()),
            Format::Csv => {
                let (t, e) = self.csv_text();
                match e {
                    None => Rendering::Text(t),
                    Some(e) => Rendering::CsvError(t, e),
                }
            },
        }
    }
}

} // verus!
