use dorisctl::describe::{col_idx, describe_layout};
use dorisctl::output::ResultSet;
use dorisctl::postgres::{export_all_step, ExportStep, doris_to_pg_type, export_table, export_all_document, compare_ddl};
use dorisctl::spark::{emit_all_step, EmitAllStep, doris_to_spark_type, spark_emit, SparkOutput, default_output_dir, schema_file_path, emit_all_done, written_message};
use dorisctl::statements::{DescribeError, describe_statement, use_statement, show_create_table_statement, show_tablets_statement, select_database};
use dorisctl::diff::ChangeKind;

fn s(v: &[&str]) -> Vec<String> {
    v.iter().map(|x| x.to_string()).collect()
}

fn described() -> ResultSet {
    ResultSet::new(
        s(&["Field", "Type", "Null", "Key", "Default", "Extra"]),
        vec![
            s(&["id", "bigint(20)", "NO", "true", "NULL", ""]),
            s(&["name", "varchar(64)", "YES", "false", "NULL", ""]),
            s(&["price", "DECIMAL(10, 2)", "yes", "false", "NULL", ""]),
        ],
    )
}

#[test]
fn spark_type_mapping() {
    assert_eq!(doris_to_spark_type("tinyint"), "ByteType");
    assert_eq!(doris_to_spark_type(" decimal(10,2) "), "DecimalType");
    assert_eq!(doris_to_spark_type("LARGEINT"), "DecimalType(38,0)");
    assert_eq!(doris_to_spark_type("datetimev2(3)"), "TimestampType");
    assert_eq!(doris_to_spark_type("JSONB"), "BinaryType");
    assert_eq!(doris_to_spark_type("array<int>"), "StringType");
    assert_eq!(doris_to_spark_type("ınt"), "IntegerType");
    assert_eq!(doris_to_spark_type("whatever"), "StringType");
}

#[test]
fn pg_type_mapping() {
    assert_eq!(doris_to_pg_type("tinyint(4)"), "SMALLINT");
    assert_eq!(doris_to_pg_type("double"), "DOUBLE PRECISION");
    assert_eq!(doris_to_pg_type("varchar(20)"), "VARCHAR");
    assert_eq!(doris_to_pg_type("bitmap"), "BYTEA");
    assert_eq!(doris_to_pg_type("map<int,int>"), "TEXT");
    assert_eq!(doris_to_pg_type("STRUCT"), "JSONB");
}

#[test]
fn column_lookup_ignores_case() {
    let cols = s(&["FIELD", "type", "Null"]);
    assert_eq!(col_idx(&cols, "Field"), Some(0));
    assert_eq!(col_idx(&cols, "TYPE"), Some(1));
    assert_eq!(col_idx(&cols, "Key"), None);
    let l = describe_layout(&s(&["x", "y"]));
    assert_eq!((l.field, l.ty, l.null, l.key), (0, 1, None, None));
}

#[test]
fn spark_sql_ddl() {
    match spark_emit("orders", &described(), false) {
        Ok(SparkOutput::Sql(sql)) => assert_eq!(
            sql,
            "CREATE TABLE IF NOT EXISTS spark_orders (\n  `id` LongType NOT NULL,\n  `name` StringType,\n  `price` DecimalType\n) USING DELTA;\n"
        ),
        _ => panic!("expected SQL"),
    }
}

#[test]
fn spark_struct_type() {
    match spark_emit("orders", &described(), true) {
        Ok(SparkOutput::Schema(schema)) => {
            assert_eq!(schema.table, "orders");
            assert_eq!(schema.fields.len(), 3);
            assert_eq!(schema.fields[0].name, "id");
            assert_eq!(schema.fields[0].data_type, "LongType");
            assert!(!schema.fields[0].nullable);
            assert!(schema.fields[2].nullable);
        }
        _ => panic!("expected a schema"),
    }
}

#[test]
fn describe_errors() {
    let empty = ResultSet::new(s(&["Field", "Type"]), vec![]);
    match spark_emit("t", &empty, false) {
        Err(e @ DescribeError::NoColumns(_)) => {
            assert_eq!(e.message(), "Table 't' not found or has no columns.")
        }
        _ => panic!("expected NoColumns"),
    }
    let short = ResultSet::new(s(&["Field", "Type"]), vec![s(&["only"])]);
    assert!(matches!(spark_emit("t", &short, false), Err(DescribeError::MissingCell)));
    assert!(matches!(export_table("t", "public", true, &short), Err(DescribeError::MissingCell)));
}

#[test]
fn postgres_ddl_with_key() {
    let d = ResultSet::new(
        s(&["Field", "Type", "Null", "Key"]),
        vec![
            s(&["id", "int(11)", "NO", "PRI"]),
            s(&["v", "varchar(8)", "YES", ""]),
        ],
    );
    let ddl = export_table("t", "public", true, &d).ok().unwrap();
    assert_eq!(
        ddl,
        "-- public.t\nCREATE TABLE IF NOT EXISTS public.\"t\" (\n  \"id\" INTEGER NOT NULL,\n  \"v\" VARCHAR,\n  PRIMARY KEY (\"id\")\n);\n"
    );
}

#[test]
fn postgres_ddl_without_key() {
    let d = ResultSet::new(s(&["Field", "Type"]), vec![s(&["a", "date"]), s(&["b", "hll"])]);
    let ddl = export_table("t", "s", false, &d).ok().unwrap();
    assert_eq!(ddl, "-- s.t\nCREATE TABLE s.\"t\" (\n  \"a\" DATE,\n  \"b\" BYTEA\n);\n");
    assert_eq!(
        export_all_document("db", &vec![ddl.clone()]),
        format!("-- Exported from Doris database 'db'\n\n{}\n", ddl)
    );
}

#[test]
fn postgres_compare() {
    let c = compare_ddl("t", "f.sql", "a\nb\n", "a\nc\n");
    assert_eq!(c.header, s(&["--- doris/t", "+++ local/f.sql"]));
    assert!(!c.identical);
    assert!(c.lines.iter().any(|(k, l)| *k == ChangeKind::Delete && l == "- b"));
    assert!(c.lines.iter().any(|(k, l)| *k == ChangeKind::Insert && l == "+ c"));
    let same = compare_ddl("t", "f.sql", " x\n", "x");
    assert!(same.identical);
    assert!(same.lines.is_empty());
}

#[test]
fn statements_and_database_choice() {
    assert_eq!(use_statement("db"), "USE `db`");
    assert_eq!(describe_statement("t"), "DESCRIBE `t`");
    assert_eq!(show_create_table_statement("t"), "SHOW CREATE TABLE `t`");
    assert_eq!(show_tablets_statement("t"), "SHOW TABLETS FROM `t`");
    assert_eq!(select_database(&Some("a".into()), &Some("b".into())), Some("a".to_string()));
    assert_eq!(select_database(&None, &Some("b".into())), Some("b".to_string()));
    assert_eq!(select_database(&None, &None), None);
}

#[test]
fn spark_emit_all_paths() {
    assert_eq!(default_output_dir("db"), "db_spark_schemas");
    assert_eq!(schema_file_path("d", "t"), "d/t.json");
    assert_eq!(emit_all_done(2, "d"), "Done. 2 schema(s) written to 'd'.");
    assert_eq!(written_message("p"), "Written to 'p'.");
}

#[test]
fn emit_all_steps() {
    match emit_all_step("out", "orders", Some(&described())) {
        Ok(EmitAllStep::Write { path, schema }) => {
            assert_eq!(path, "out/orders.json");
            assert_eq!(schema.table, "orders");
            assert_eq!(schema.fields.len(), 3);
            assert_eq!(schema.fields[2].data_type, "DecimalType");
        }
        _ => panic!("expected a schema to write"),
    }
    let empty = ResultSet::new(s(&["Field", "Type"]), vec![]);
    for d in [None, Some(&empty)] {
        match emit_all_step("out", "t", d) {
            Ok(EmitAllStep::Skip(m)) => assert_eq!(m, "  skipping 't' (no columns)"),
            _ => panic!("expected a skip"),
        }
    }
    let short = ResultSet::new(s(&["Field", "Type"]), vec![s(&["a"])]);
    assert!(matches!(emit_all_step("out", "t", Some(&short)), Err(DescribeError::MissingCell)));
}

#[test]
fn export_all_steps() {
    match export_all_step("orders", "public", Ok(&described())) {
        Ok(ExportStep::Keep(ddl)) => {
            assert_eq!(Some(ddl), export_table("orders", "public", true, &described()).ok());
        }
        _ => panic!("expected DDL"),
    }
    match export_all_step("t", "public", Err("connection reset")) {
        Ok(ExportStep::Skip(m)) => assert_eq!(m, "skipping 't': connection reset"),
        _ => panic!("expected a skip"),
    }
    let empty = ResultSet::new(s(&["Field", "Type"]), vec![]);
    match export_all_step("t", "public", Ok(&empty)) {
        Ok(ExportStep::Skip(m)) => assert_eq!(m, "skipping 't': Table 't' not found or has no columns."),
        _ => panic!("expected a skip"),
    }
    let short = ResultSet::new(s(&["Field", "Type", "Key"]), vec![s(&["a", "int"])]);
    assert!(matches!(export_all_step("t", "public", Ok(&short)), Err(DescribeError::MissingCell)));
}

#[test]
fn ascii_headers_are_found_case_blind() {
    let l = describe_layout(&s(&["Extra", "KEY", "null", "TYPE", "field"]));
    assert_eq!((l.field, l.ty, l.null, l.key), (4, 3, Some(2), Some(1)));
}
