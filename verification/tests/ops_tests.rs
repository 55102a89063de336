use dorisctl::output::{Format, ResultSet, Rendering};
use dorisctl::load::{parse_table_ref, chrono_label, default_label, stream_load_path, stream_load_headers, LoadResponse, load_report_lines, load_failed, load_status_path, cancel_hint, file_not_found, upload_message, table_ref_error};
use dorisctl::admin::{jobs_database, job_statement, config_path, JobsCmd, ConfigCmd, BackendInfo, backends_table, empty_listing, AdminCmd};
use dorisctl::iceberg::{filter_iceberg_catalogs, contains_str, databases_statement, tables_statement, meta_statement, plain_statement, time_travel_statement, no_catalogs_message};

fn s(v: &[&str]) -> Vec<String> {
    v.iter().map(|x| x.to_string()).collect()
}

#[test]
fn format_names() {
    assert_eq!(Format::Table.name(), "table");
    assert_eq!(Format::Json.name(), "json");
    assert_eq!(Format::Csv.name(), "csv");
    assert!(Format::default_format() == Format::Table);
}

#[test]
fn table_output() {
    let empty = ResultSet::new(s(&["a"]), vec![]);
    assert_eq!(empty.table_text(), "(no rows)\n");
    let rs = ResultSet::new(s(&["a", "b"]), vec![s(&["1", "2"])]);
    let t = rs.table_text();
    assert!(t.ends_with("\n1 row(s)\n"));
    assert!(t.contains('│'));
    assert!(t.contains(" a "));
}

#[test]
fn json_records_pair_names_and_values() {
    let rs = ResultSet::new(s(&["a", "b"]), vec![s(&["1", "2"]), s(&["3"]), s(&["4", "5", "6"])]);
    let r = rs.json_records();
    assert_eq!(r.len(), 3);
    assert_eq!(r[0], vec![("a".to_string(), "1".to_string()), ("b".to_string(), "2".to_string())]);
    assert_eq!(r[1], vec![("a".to_string(), "3".to_string())]);
    assert_eq!(r[2].len(), 2);
    assert!(matches!(rs.render(Format::Json), Rendering::JsonRecords(_)));
}

#[test]
fn csv_output() {
    let rs = ResultSet::new(s(&["a", "b"]), vec![s(&["1", "x,y"])]);
    let (t, e) = rs.csv_text();
    assert_eq!(t, "a,b\n1,\"x,y\"\n");
    assert!(e.is_none());
    let ragged = ResultSet::new(s(&["a", "b"]), vec![s(&["1", "2"]), s(&["3"])]);
    match ragged.render(Format::Csv) {
        Rendering::CsvError(t, e) => {
            assert!(t.starts_with("a,b\n1,2\n"));
            assert!(e.contains("found record with 1 field"));
        }
        _ => panic!("expected an error"),
    }
}

#[test]
fn stream_load_requests() {
    assert_eq!(parse_table_ref("db.t.x"), Some(("db".to_string(), "t.x".to_string())));
    assert_eq!(parse_table_ref("nodot"), None);
    assert_eq!(table_ref_error(), "--table must be in db.table format");
    assert_eq!(default_label("t", "1700000000"), "dorisctl_t_1700000000");
    assert_eq!(stream_load_path("db", "t"), "/api/db/t/_stream_load");
    let h = stream_load_headers("l", "csv", ",");
    assert_eq!(h[3], ("Expect".to_string(), "100-continue".to_string()));
    assert_eq!(file_not_found("f"), "File not found: f");
    assert_eq!(upload_message("db.t"), "Uploading → db.t");
    assert_eq!(load_status_path("l"), "/api/_load_error_log?label=l");
    assert_eq!(load_failed("400 Bad Request", "{}"), "Stream Load failed (400 Bad Request): {}");
    assert_eq!(cancel_hint("l")[1], "  dorisctl query \"CANCEL LOAD WHERE LABEL = 'l'\"");
}

#[test]
fn stream_load_reports() {
    let ok = LoadResponse { status: Some("Success".into()), loaded_rows: Some(10), filtered_rows: None, error_url: None };
    assert_eq!(
        load_report_lines(&ok, "l"),
        s(&["Status:       Success", "Label:        l", "Loaded rows:  10", "Filtered rows: 0"])
    );
    let bad = LoadResponse { status: None, loaded_rows: Some(-1), filtered_rows: Some(2), error_url: None };
    let lines = load_report_lines(&bad, "l");
    assert_eq!(lines[0], "Status:       unknown");
    assert_eq!(lines[2], "Loaded rows:  -1");
    assert_eq!(lines[4], "Error URL:    N/A");
}

#[test]
fn admin_requests() {
    let (sql, msg) = job_statement(&JobsCmd::Pause { id: "7".into() }).unwrap();
    assert_eq!(sql, "PAUSE ROUTINE LOAD FOR 7");
    assert_eq!(msg, "Job 7 paused.");
    assert_eq!(job_statement(&JobsCmd::Cancel { id: "7".into() }).unwrap().0, "STOP ROUTINE LOAD FOR 7");
    assert!(job_statement(&JobsCmd::List { db: None }).is_none());
    assert_eq!(config_path(&ConfigCmd::Get { key: "k".into() }), "/api/_get_config?conf_item=k");
    assert_eq!(config_path(&ConfigCmd::SetValue { key: "k".into(), value: "v".into() }), "/api/_set_config?k=v");
    assert_eq!(empty_listing(&AdminCmd::Frontends), "(no frontends)");
}

#[test]
fn backends() {
    let b = BackendInfo {
        host: "be1:9050".into(),
        is_alive: Some("true".into()),
        tablet_num: "12".into(),
        data_used_capacity: None,
        total_capacity: Some("1 TB".into()),
    };
    let rs = backends_table(&vec![b]);
    assert_eq!(rs.columns, s(&["Host", "Alive", "TabletNum", "DataUsedCapacity", "TotalCapacity"]));
    assert_eq!(rs.rows[0], s(&["be1:9050", "true", "12", "0", "1 TB"]));
}

#[test]
fn iceberg_catalogs() {
    let rs = ResultSet::new(
        s(&["CatalogName", "Type"]),
        vec![s(&["internal", "internal"]), s(&["lake", "ICEBERG"]), s(&["h"])],
    );
    let f = filter_iceberg_catalogs(rs);
    assert_eq!(f.rows, vec![s(&["lake", "ICEBERG"])]);
    let untyped = ResultSet::new(s(&["Name"]), vec![s(&["x"])]);
    assert_eq!(filter_iceberg_catalogs(untyped).rows.len(), 1);
    assert!(contains_str("abc", "bc"));
    assert!(contains_str("abc", ""));
    assert!(!contains_str("ab", "abc"));
    assert!(no_catalogs_message().starts_with("No Iceberg catalogs"));
}

#[test]
fn iceberg_statements() {
    assert_eq!(databases_statement("c"), "SHOW DATABASES FROM `c`");
    assert_eq!(tables_statement("c", "d"), "SHOW TABLES FROM `c`.`d`");
    assert_eq!(
        meta_statement("c.d.t", "snapshots"),
        "SELECT * FROM iceberg_meta('table' = 'c.d.t', 'query_type' = 'snapshots')"
    );
    assert_eq!(plain_statement("DESCRIBE ", "c.d.t"), "DESCRIBE c.d.t");
    assert_eq!(
        time_travel_statement("t", -5, 20),
        "SELECT * FROM t FOR VERSION AS OF -5 LIMIT 20"
    );
}

#[test]
fn jobs_list_database() {
    assert_eq!(jobs_database(&JobsCmd::List { db: Some("d".into()) }), Some("d".to_string()));
    assert_eq!(jobs_database(&JobsCmd::List { db: None }), None);
    assert_eq!(jobs_database(&JobsCmd::Pause { id: "1".into() }), None);
}

#[test]
fn chrono_label_is_decimal_seconds() {
    let l = chrono_label().expect("clock after the epoch");
    assert!(!l.is_empty());
    assert!(l.chars().all(|c| c.is_ascii_digit()));
    assert!(l.parse::<u64>().unwrap() > 1_600_000_000);
}
