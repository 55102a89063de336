use dorisctl::query::{Repl, ReplInput, ReplAction, resolve_sql, query_mode, QueryArgs, QueryMode, QueryError, SqlSource, is_read_statement, dry_run_text, affected_message};
use dorisctl::schema::{apply_step, ApplyStep, split_statements, preview_line, can_preview, apply_summary, statement_label, statement_failed, schema_diff, SchemaDiff};
use dorisctl::output::ResultSet;

fn line(repl: &mut Repl, l: &str) -> ReplAction {
    repl.step(ReplInput::Line(l.to_string()))
}

#[test]
fn repl_meta_commands() {
    let mut r = Repl::new();
    assert!(matches!(line(&mut r, "  \\q "), ReplAction::Quit));
    assert!(matches!(line(&mut r, "exit"), ReplAction::Quit));
    assert!(matches!(line(&mut r, "\\help"), ReplAction::ShowHelp));
    match line(&mut r, "\\c  sales ") {
        ReplAction::SwitchDatabase(d) => assert_eq!(d, "sales"),
        _ => panic!(),
    }
    match line(&mut r, "\\l") {
        ReplAction::RunQuiet(s) => assert_eq!(s, "SHOW DATABASES"),
        _ => panic!(),
    }
    match line(&mut r, "\\dt") {
        ReplAction::RunQuiet(s) => assert_eq!(s, "SHOW TABLES"),
        _ => panic!(),
    }
    match line(&mut r, "\\d orders") {
        ReplAction::RunQuiet(s) => assert_eq!(s, "DESCRIBE `orders`"),
        _ => panic!(),
    }
    assert!(!r.is_continuation());
}

#[test]
fn repl_statement_spans_lines() {
    let mut r = Repl::new();
    assert!(matches!(line(&mut r, "select *"), ReplAction::Continue));
    assert!(r.is_continuation());
    assert!(matches!(line(&mut r, "\\q"), ReplAction::Continue));
    match line(&mut r, "from t ;; ") {
        ReplAction::Execute(s) => assert_eq!(s, "select *\n\\q\nfrom t"),
        _ => panic!(),
    }
    assert_eq!(r.buf, "");
    assert!(matches!(line(&mut r, " ; "), ReplAction::Skip));
}

#[test]
fn repl_interrupts() {
    let mut r = Repl::new();
    assert!(matches!(r.step(ReplInput::Interrupted), ReplAction::QuitHint));
    line(&mut r, "select 1");
    assert!(matches!(r.step(ReplInput::Interrupted), ReplAction::Cancelled));
    assert_eq!(r.buf, "");
    assert!(matches!(r.step(ReplInput::Eof), ReplAction::EndOfInput));
    match r.step(ReplInput::Failed("boom".into())) {
        ReplAction::ReadFailed(e) => assert_eq!(e, "boom"),
        _ => panic!(),
    }
}

#[test]
fn sql_source() {
    assert!(matches!(resolve_sql(Some("x".into()), None), Ok(SqlSource::Inline(s)) if s == "x"));
    assert!(matches!(resolve_sql(None, Some("f".into())), Ok(SqlSource::File(f)) if f == "f"));
    match resolve_sql(Some("x".into()), Some("f".into())) {
        Err(e @ QueryError::BothGiven) => {
            assert_eq!(e.message(), "Provide either a SQL string or --file, not both.")
        }
        _ => panic!(),
    }
    match resolve_sql(None, None) {
        Err(e @ QueryError::NoneGiven) => assert_eq!(
            e.message(),
            "Provide a SQL string, --file <path>, or omit both for interactive mode."
        ),
        _ => panic!(),
    }
    let args = QueryArgs { sql: None, file: None, database: None, dry_run: false };
    assert!(matches!(query_mode(args), Ok(QueryMode::Interactive)));
}

#[test]
fn read_statements() {
    assert!(is_read_statement("  select 1"));
    assert!(is_read_statement("Desc t"));
    assert!(is_read_statement("with x as (select 1) select * from x"));
    assert!(is_read_statement("explain select 1"));
    assert!(!is_read_statement("insert into t values (1)"));
    assert!(!is_read_statement("USE db"));
    assert_eq!(dry_run_text("select 1"), "-- dry-run (not executed) --\nselect 1\n");
    assert_eq!(affected_message(3), "OK — 3 row(s) affected.");
}

#[test]
fn ddl_file_statements() {
    assert_eq!(split_statements("create table a (x int);\n ;\n drop table b ;"), vec!["create table a (x int)", "drop table b"]);
    assert_eq!(split_statements("select 1"), vec!["select 1"]);
    assert!(split_statements(" ; ;").is_empty());
    for st in split_statements("a; b ;c;;") {
        assert!(!st.is_empty() && !st.contains(';') && st.trim() == st);
    }
    assert_eq!(apply_summary(2, "f.sql"), "2 statement(s) in 'f.sql'");
    assert_eq!(statement_label(0), "[1]");
    assert_eq!(statement_failed(1, "bad"), "Statement 2 failed: bad");
}

#[test]
fn previews() {
    assert_eq!(preview_line(0, "short"), "[1] short");
    let long = "x".repeat(130);
    assert_eq!(preview_line(4, &long), format!("[5] {} …", "x".repeat(120)));
    let awkward = format!("{}é", "x".repeat(119));
    assert!(!can_preview(&awkward));
    assert!(can_preview(&long));
}

#[test]
fn live_schema_diff() {
    let live = ResultSet::new(
        vec!["Table".into(), "Create Table".into()],
        vec![vec!["t".into(), "CREATE TABLE t (\n  a int\n)".into()]],
    );
    assert!(matches!(schema_diff("t", "f", "CREATE TABLE t (\n  a int\n)\n", &live), SchemaDiff::Identical));
    match schema_diff("t", "f", "CREATE TABLE t (\n  b int\n)", &live) {
        SchemaDiff::Differs { header, lines } => {
            assert_eq!(header, vec!["--- live/t".to_string(), "+++ local/f".to_string()]);
            assert!(lines.iter().any(|(_, l)| l == "-   a int\n"));
            assert!(lines.iter().any(|(_, l)| l == "+   b int\n"));
        }
        _ => panic!(),
    }
    let nothing = ResultSet::new(vec![], vec![]);
    assert!(matches!(schema_diff("t", "f", "  ", &nothing), SchemaDiff::Identical));
}

#[test]
fn apply_stops_at_the_first_failure() {
    assert!(matches!(apply_step(0, None), ApplyStep::Next(l) if l == "[1]"));
    assert!(matches!(apply_step(2, Some("syntax error")), ApplyStep::Stop(m) if m == "Statement 3 failed: syntax error"));
}
