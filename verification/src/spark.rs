//! Spark bridge: Spark SQL DDL and `StructType` schemas for Doris tables.
use vstd::prelude::*;
use crate::describe::{DescribeLayout, describe_layout, layout_of, row_fits, rows_fit, check_rows_fit, nullable, is_nullable};
use crate::output::ResultSet;
use crate::text::{is_ascii_str, ascii_upper_str, to_uppercase, trim_str, before_char_str, str_eq, push_str, push_line, upper_case, trim, before_char, lines_text};
use crate::statements::DescribeError;

verus! {

/// The Spark subcommands.
#[allow(inconsistent_fields)]
pub enum SparkCmd {
    /// Emit a Spark-compatible CREATE TABLE DDL for a Doris table.
    EmitDdl { table: String, db: Option<String>, output: Option<String>, json: bool },
    /// Emit Spark StructType JSON for all tables in a database.
    EmitAll { db: String, output_dir: Option<String> },
}

/// The base name of an upper-case Doris type: trimmed, without its
/// `(precision, scale)`, trimmed again.
pub open spec fn spark_base_of_upper(upper: Seq<char>) -> Seq<char> {
    trim(before_char(trim(upper), '('))
}

/// The base name of a Doris type for the Spark mapping: upper case, trimmed,
/// without its `(precision, scale)`.
pub open spec fn spark_base(doris_type: Seq<char>) -> Seq<char> {
    spark_base_of_upper(upper_case(doris_type))
}

/// The Spark type of a Doris base type.
pub open spec fn spark_type_name(base: Seq<char>) -> Seq<char> {
    if base == "TINYINT"@ {
        "ByteType"@
    } else if base == "SMALLINT"@ {
        "ShortType"@
    } else if base == "INT"@ {
        "IntegerType"@
    } else if base == "BIGINT"@ {
        "LongType"@
    } else if base == "LARGEINT"@ {
        "DecimalType(38,0)"@
    } else if base == "FLOAT"@ {
        "FloatType"@
    } else if base == "DOUBLE"@ {
        "DoubleType"@
    } else if base == "DECIMAL"@ {
        "DecimalType"@
    } else if base == "BOOLEAN"@ {
        "BooleanType"@
    } else if base == "CHAR"@ || base == "VARCHAR"@ || base == "STRING"@ || base == "TEXT"@ {
        "StringType"@
    } else if base == "DATE"@ || base == "DATEV2"@ {
        "DateType"@
    } else if base == "DATETIME"@ || base == "DATETIMEV2"@ {
        "TimestampType"@
    } else if base == "ARRAY"@ {
        "ArrayType"@
    } else if base == "MAP"@ {
        "MapType"@
    } else if base == "STRUCT"@ {
        "StructType"@
    } else if base == "JSON"@ {
        "StringType"@
    } else if base == "JSONB"@ || base == "HLL"@ || base == "BITMAP"@ {
        "BinaryType"@
    } else {
        "StringType"@
    }
}

fn spark_name(base: &str) -> (r: &'static str)
    ensures
        r@ == spark_type_name(base@),
{
    if str_eq(base, "TINYINT") {
        "ByteType"
    } else if str_eq(base, "SMALLINT") {
        "ShortType"
    } else if str_eq(base, "INT") {
        "IntegerType"
    } else if str_eq(base, "BIGINT") {
        "LongType"
    } else if str_eq(base, "LARGEINT") {
        "DecimalType(38,0)"
    } else if str_eq(base, "FLOAT") {
        "FloatType"
    } else if str_eq(base, "DOUBLE") {
        "DoubleType"
    } else if str_eq(base, "DECIMAL") {
        "DecimalType"
    } else if str_eq(base, "BOOLEAN") {
        "BooleanType"
    } else if str_eq(base, "CHAR") || str_eq(base, "VARCHAR") || str_eq(base, "STRING") || str_eq(
        base,
        "TEXT",
    ) {
        "StringType"
    } else if str_eq(base, "DATE") || str_eq(base, "DATEV2") {
        "DateType"
    } else if str_eq(base, "DATETIME") || str_eq(base, "DATETIMEV2") {
        "TimestampType"
    } else if str_eq(base, "ARRAY") {
        "ArrayType"
    } else if str_eq(base, "MAP") {
        "MapType"
    } else if str_eq(base, "STRUCT") {
        "StructType"
    } else if str_eq(base, "JSON") {
        "StringType"
    } else if str_eq(base, "JSONB") || str_eq(base, "HLL") || str_eq(base, "BITMAP") {
        "BinaryType"
    } else {
        "StringType"
    }
}

/// The Spark type of a Doris column type already in upper case.
pub fn spark_type_of_upper(upper: &str) -> (r: &'static str)
    ensures
        r@ == spark_type_name(spark_base_of_upper(upper@)),
{
    let t = trim_str(upper);
    let before = before_char_str(t.as_str(), '(');
    let base = trim_str(before.as_str());
    spark_name(base.as_str())
}

/// The Spark type of a Doris column type.
pub fn doris_to_spark_type(doris_type: &str) -> (r: &'static str)
    ensures
        r@ == spark_type_name(spark_base(doris_type@)),
        is_ascii_str(doris_type@) ==> r@ == spark_type_name(spark_base_of_upper(ascii_upper_str(doris_type@))),
{
    let upper = to_uppercase(doris_type);
    spark_type_of_upper(upper.as_str())
}

/// The DDL line of the `i`-th described column.
pub open spec fn spark_column_line(l: DescribeLayout, rows: Seq<Seq<Seq<char>>>, i: int) -> Seq<char> {
    let row = rows[i];
    "  `"@ + row[l.field as int] + "` "@ + spark_type_name(spark_base(row[l.ty as int])) + (if nullable(
        l,
        row,
    ) {
        Seq::empty()
    } else {
        " NOT NULL"@
    }) + (if i < rows.len() - 1 {
        ","@
    } else {
        Seq::empty()
    })
}

/// The Spark SQL DDL of a described table.
pub open spec fn spark_sql(table: Seq<char>, l: DescribeLayout, rows: Seq<Seq<Seq<char>>>) -> Seq<char> {
    lines_text(
        seq!["CREATE TABLE IF NOT EXISTS spark_"@ + table + " ("@] + Seq::new(
            rows.len(),
            |i: int| spark_column_line(l, rows, i),
        ) + seq![") USING DELTA;"@],
    )
}

/// Spark SQL `CREATE TABLE` for the described columns.
pub fn emit_spark_sql(table: &str, l: &DescribeLayout, rows: &Vec<Vec<String>>) -> (r: String)
    requires
        rows_fit(*l, rows.deep_view(), false),
    ensures
        r@ == spark_sql(table@, *l, rows.deep_view()),
{
    let ghost rv = rows.deep_view();
    let ghost col_lines = Seq::new(rv.len(), |i: int| spark_column_line(*l, rv, i));
    let mut header = String::from_str("CREATE TABLE IF NOT EXISTS spark_");
    push_str(&mut header, table);
    push_str(&mut header, " (");
    let mut r = String::new();
    push_line(&mut r, header.as_str());
    let ghost head = seq![header@];
    assert(head.drop_last() =~= Seq::<Seq<char>>::empty());
    assert(lines_text(Seq::<Seq<char>>::empty()) == Seq::<char>::empty());
    assert(r@ =~= lines_text(head));
    let n = rows.len();
    let mut i: usize = 0;
    while i < n
        invariant
            i <= n,
            n == rows@.len(),
            rv == rows.deep_view(),
            rows_fit(*l, rv, false),
            col_lines == Seq::new(rv.len(), |i: int| spark_column_line(*l, rv, i)),
            head == seq![header@],
            header@ == "CREATE TABLE IF NOT EXISTS spark_"@ + table@ + " ("@,
            r@ == lines_text(head + col_lines.take(i as int)),
        decreases n - i,
    {
        let row = &rows[i];
        assert(rv[i as int] == row.deep_view());
        assert(row_fits(*l, rv[i as int], false));
        let mut line = String::from_str("  `");
        push_str(&mut line, row[l.field].as_str());
        push_str(&mut line, "` ");
        push_str(&mut line, doris_to_spark_type(row[l.ty].as_str()));
        if !is_nullable(l, row) {
            push_str(&mut line, " NOT NULL");
        }
        if i < n - 1 {
            push_str(&mut line, ",");
        }
        proof {
            reveal_strlit("");
            assert(line@ =~= spark_column_line(*l, rv, i as int));
        }
        let ghost before = head + col_lines.take(i as int);
        push_line(&mut r, line.as_str());
        i += 1;
        assert((head + col_lines.take(i as int)).drop_last() =~= before);
    }
    let ghost body = head + col_lines;
    assert(head + col_lines.take(n as int) =~= body);
    push_line(&mut r, ") USING DELTA;");
    assert((body + seq![") USING DELTA;"@]).drop_last() =~= body);
    r
}

/// One field of a Spark `StructType`.
pub struct SparkField {
    pub name: String,
    pub data_type: String,
    pub nullable: bool,
}

/// A Spark `StructType` schema for one table; its JSON form is
/// `{"fields": [...], "table": ..., "type": "struct"}` with each field as
/// `{"metadata": {}, "name": ..., "nullable": ..., "type": ...}`.
pub struct SparkSchema {
    pub table: String,
    pub fields: Vec<SparkField>,
}

/// Field `i` of the schema of a described table.
pub open spec fn spark_field_matches(f: SparkField, l: DescribeLayout, row: Seq<Seq<char>>) -> bool {
    &&& f.name@ == row[l.field as int]
    &&& f.data_type@ == spark_type_name(spark_base(row[l.ty as int]))
    &&& f.nullable == nullable(l, row)
}

/// The `StructType` of the described columns.
pub fn emit_struct_type(table: &str, l: &DescribeLayout, rows: &Vec<Vec<String>>) -> (s: SparkSchema)
    requires
        rows_fit(*l, rows.deep_view(), false),
    ensures
        s.table@ == table@,
        s.fields@.len() == rows@.len(),
        forall|i: int|
            0 <= i < rows@.len() ==> spark_field_matches(
                #[trigger] s.fields@[i],
                *l,
                rows.deep_view()[i],
            ),
{
    let ghost rv = rows.deep_view();
    let mut fields: Vec<SparkField> = Vec::new();
    let mut i: usize = 0;
    while i < rows.len()
        invariant
            i <= rows@.len(),
            rv == rows.deep_view(),
            rows_fit(*l, rv, false),
            fields@.len() == i,
            forall|k: int| 0 <= k < i ==> spark_field_matches(#[trigger] fields@[k], *l, rv[k]),
        decreases rows@.len() - i,
    {
        let row = &rows[i];
        assert(rv[i as int] == row.deep_view());
        assert(row_fits(*l, rv[i as int], false));
        let f = SparkField {
            name: row[l.field].clone(),
            data_type: String::from_str(doris_to_spark_type(row[l.ty].as_str())),
            nullable: is_nullable(l, row),
        };
        fields.push(f);
        i += 1;
    }
    SparkSchema { table: String::from_str(table), fields }
}

/// What `emit-ddl` produces for a described table.
pub enum SparkOutput {
    Sql(String),
    Schema(SparkSchema),
}

/// `emit-ddl`: Spark SQL, or the `StructType` when `json`, of a table whose
/// `DESCRIBE` gave `described`.  A table with no columns is refused, and so
/// is a description whose rows lack a cell the layout points at.
pub fn spark_emit(table: &str, described: &ResultSet, json: bool) -> (r: Result<SparkOutput, DescribeError>)
    ensures
        described.rows@.len() == 0 ==> (r matches Err(DescribeError::NoColumns(t)) && t@ == table@),
        described.rows@.len() > 0 && !rows_fit(layout_of(described.columns.deep_view()), described.rows.deep_view(), false)
            ==> r matches Err(DescribeError::MissingCell),
        described.rows@.len() > 0 && rows_fit(layout_of(described.columns.deep_view()), described.rows.deep_view(), false)
            ==> match r {
            Ok(SparkOutput::Sql(s)) => !json && s@ == spark_sql(
                table@,
                layout_of(described.columns.deep_view()),
                described.rows.deep_view(),
            ),
            Ok(SparkOutput::Schema(s)) => json && s.table@ == table@ && s.fields@.len()
                == described.rows@.len() && forall|i: int|
                0 <= i < described.rows@.len() ==> spark_field_matches(
                    #[trigger] s.fields@[i],
                    layout_of(described.columns.deep_view()),
                    described.rows.deep_view()[i],
                ),
            Err(_) => false,
        },
{
    if described.rows.len() == 0 {
        return Err(DescribeError::NoColumns(String::from_str(table)));
    }
    let l = describe_layout(&described.columns);
    if !check_rows_fit(&l, &described.rows, false) {
        return Err(DescribeError::MissingCell);
    }
    if json {
        Ok(SparkOutput::Schema(emit_struct_type(table, &l, &described.rows)))
    } else {
        Ok(SparkOutput::Sql(emit_spark_sql(table, &l, &described.rows)))
    }
}


/// What `emit-all` does with one table.
pub enum EmitAllStep {
    /// The table's `DESCRIBE` failed or gave no columns: this warning, and on
    /// to the next table.
    Skip(String),
    /// Write this schema to this file.
    Write { path: String, schema: SparkSchema },
}

/// `emit-all` for one table of `dir`: `described` is its `DESCRIBE` result,
/// `None` when that query failed.  A description whose rows lack a cell the
/// layout points at is refused.
pub fn emit_all_step(dir: &str, table: &str, described: Option<&ResultSet>) -> (r: Result<EmitAllStep, DescribeError>)
    ensures
        (described is None || described.unwrap().rows@.len() == 0) ==> (r matches Ok(EmitAllStep::Skip(m))
            && m@ == "  skipping '"@ + table@ + "' (no columns)"@),
        described is Some && described.unwrap().rows@.len() > 0 && !rows_fit(
            layout_of(described.unwrap().columns.deep_view()),
            described.unwrap().rows.deep_view(),
            false,
        ) ==> r matches Err(DescribeError::MissingCell),
        described is Some && described.unwrap().rows@.len() > 0 && rows_fit(
            layout_of(described.unwrap().columns.deep_view()),
            described.unwrap().rows.deep_view(),
            false,
        ) ==> (r matches Ok(EmitAllStep::Write { path, schema }) && path@ == dir@ + "/"@ + table@ + ".json"@
            && schema.table@ == table@ && schema.fields@.len() == described.unwrap().rows@.len() && forall|i: int|
            0 <= i < described.unwrap().rows@.len() ==> spark_field_matches(
                #[trigger] schema.fields@[i],
                layout_of(described.unwrap().columns.deep_view()),
                described.unwrap().rows.deep_view()[i],
            )),
{
    let skip = match described {
        None => true,
        Some(d) => d.rows.len() == 0,
    };
    if skip {
        let mut m = String::from_str("  skipping '");
        push_str(&mut m, table);
        push_str(&mut m, "' (no columns)");
        return Ok(EmitAllStep::Skip(m));
    }
    match described {
        None => Err(DescribeError::MissingCell),
        Some(d) => match spark_emit(table, d, true) {
            Ok(SparkOutput::Schema(schema)) => Ok(EmitAllStep::Write { path: schema_file_path(dir, table), schema }),
            Ok(SparkOutput::Sql(_)) => Err(DescribeError::MissingCell),
            Err(e) => Err(e),
        },
    }
}

/// The directory `emit-all` writes to when none is given: `<db>_spark_schemas`.
pub fn default_output_dir(db: &str) -> (d: String)
    ensures
        d@ == db@ + "_spark_schemas"@,
{
    let mut d = String::from_str(db);
    push_str(&mut d, "_spark_schemas");
    d
}

/// `<dir>/<table>.json`.
pub fn schema_file_path(dir: &str, table: &str) -> (p: String)
    ensures
        p@ == dir@ + "/"@ + table@ + ".json"@,
{
    let mut p = String::from_str(dir);
    push_str(&mut p, "/");
    push_str(&mut p, table);
    push_str(&mut p, ".json");
    p
}

/// `Done. <n> schema(s) written to '<dir>'.`
pub fn emit_all_done(count: usize, dir: &str) -> (m: String)
    ensures
        m@ == "Done. "@ + crate::text::decimal(count as nat) + " schema(s) written to '"@ + dir@ + "'."@,
{
    let mut m = String::from_str("Done. ");
    let n = crate::text::u64_to_string(count as u64);
    push_str(&mut m, n.as_str());
    push_str(&mut m, " schema(s) written to '");
    push_str(&mut m, dir);
    push_str(&mut m, "'.");
    m
}

/// `Written to '<path>'.`
pub fn written_message(path: &str) -> (m: String)
    ensures
        m@ == "Written to '"@ + path@ + "'."@,
{
    let mut m = String::from_str("Written to '");
    push_str(&mut m, path);
    push_str(&mut m, "'.");
    m
}

} // verus!
