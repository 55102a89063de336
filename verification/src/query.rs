//! The `query` command: where the SQL comes from, how a statement is run, and
//! the interactive shell that gathers statements line by line.
use vstd::prelude::*;
use crate::text::{chars_of, string_of, trim_bounds, trim_str, trim_start_str, trim_end_str, to_ascii_uppercase, starts_with_str, ends_with_char, str_eq, push_str, u64_to_string, trim, trim_start, trim_end, ascii_upper_str, starts_with, decimal, is_blank};
use crate::statements::on_identifier;

verus! {

/// Arguments of `query`.
pub struct QueryArgs {
    /// SQL query string (omit to enter interactive mode).
    pub sql: Option<String>,
    /// Read the query from a file.
    pub file: Option<String>,
    /// Database to USE before running the query.
    pub database: Option<String>,
    /// Print the SQL instead of running it.
    pub dry_run: bool,
}

/// Where the SQL of a one-shot query comes from.
pub enum SqlSource {
    Inline(String),
    File(String),
}

/// Why no SQL could be had.
pub enum QueryError {
    /// Both a SQL string and a file were given.
    BothGiven,
    /// Neither was given (where interactive mode is not possible).
    NoneGiven,
}

impl QueryError {
    pub open spec fn message_spec(self) -> Seq<char> {
        match self {
            QueryError::BothGiven => "Provide either a SQL string or --file, not both."@,
            QueryError::NoneGiven => "Provide a SQL string, --file <path>, or omit both for interactive mode."@,
        }
    }

    pub fn message(&self) -> (m: String)
        ensures
            m@ == self.message_spec(),
    {
        match self {
            QueryError::BothGiven => String::from_str("Provide either a SQL string or --file, not both."),
            QueryError::NoneGiven => String::from_str(
                "Provide a SQL string, --file <path>, or omit both for interactive mode.",
            ),
        }
    }
}

/// The SQL of a one-shot query: the string, or the file to read it from.
pub fn resolve_sql(sql: Option<String>, file: Option<String>) -> (r: Result<SqlSource, QueryError>)
    ensures
        match (sql, file) {
            (Some(s), None) => r matches Ok(SqlSource::Inline(t)) && t == s,
            (None, Some(f)) => r matches Ok(SqlSource::File(p)) && p == f,
            (Some(_), Some(_)) => r matches Err(QueryError::BothGiven),
            (None, None) => r matches Err(QueryError::NoneGiven),
        },
{
    match (sql, file) {
        (Some(s), None) => Ok(SqlSource::Inline(s)),
        (None, Some(f)) => Ok(SqlSource::File(f)),
        (Some(_), Some(_)) => Err(QueryError::BothGiven),
        (None, None) => Err(QueryError::NoneGiven),
    }
}

/// What `query` does with its arguments.
pub enum QueryMode {
    /// No SQL given: the interactive shell.
    Interactive,
    /// One statement, from the command line or a file.
    OneShot(SqlSource),
}

pub fn query_mode(args: QueryArgs) -> (r: Result<QueryMode, QueryError>)
    ensures
        match (args.sql, args.file) {
            (None, None) => r matches Ok(QueryMode::Interactive),
            (Some(s), None) => r matches Ok(QueryMode::OneShot(SqlSource::Inline(t))) && t == s,
            (None, Some(f)) => r matches Ok(QueryMode::OneShot(SqlSource::File(p))) && p == f,
            (Some(_), Some(_)) => r matches Err(QueryError::BothGiven),
        },
{
    if args.sql.is_none() && args.file.is_none() {
        return Ok(QueryMode::Interactive);
    }
    match resolve_sql(args.sql, args.file) {
        Ok(s) => Ok(QueryMode::OneShot(s)),
        Err(e) => Err(e),
    }
}

/// What `--dry-run` prints.
pub fn dry_run_text(sql: &str) -> (t: String)
    ensures
        t@ == "-- dry-run (not executed) --\n"@ + sql@ + "\n"@,
{
    let mut t = String::from_str("-- dry-run (not executed) --\n");
    push_str(&mut t, sql);
    push_str(&mut t, "\n");
    t
}

/// Statements that return rows: those starting, case aside and after
/// leading whitespace, with `SELECT`, `SHOW`, `DESCRIBE`, `DESC`, `EXPLAIN`
/// or `WITH`.
pub open spec fn reads_rows(sql: Seq<char>) -> bool {
    let t = ascii_upper_str(trim_start(sql));
    ||| starts_with(t, "SELECT"@)
    ||| starts_with(t, "SHOW"@)
    ||| starts_with(t, "DESCRIBE"@)
    ||| starts_with(t, "DESC"@)
    ||| starts_with(t, "EXPLAIN"@)
    ||| starts_with(t, "WITH"@)
}

/// Whether `sql` is run as a query (its rows shown) rather than executed.
pub fn is_read_statement(sql: &str) -> (b: bool)
    ensures
        b == reads_rows(sql@),
{
    let t0 = trim_start_str(sql);
    let t = to_ascii_uppercase(t0.as_str());
    let t = t.as_str();
    starts_with_str(t, "SELECT") || starts_with_str(t, "SHOW") || starts_with_str(t, "DESCRIBE")
        || starts_with_str(t, "DESC") || starts_with_str(t, "EXPLAIN") || starts_with_str(t, "WITH")
}

/// What is printed after a statement that returns no rows.
pub fn affected_message(affected: u64) -> (m: String)
    ensures
        m@ == "OK — "@ + decimal(affected as nat) + " row(s) affected."@,
{
    let mut m = String::from_str("OK — ");
    let n = u64_to_string(affected);
    push_str(&mut m, n.as_str());
    push_str(&mut m, " row(s) affected.");
    m
}

/// `s` without the copies of `c` at its end (`str::trim_end_matches`).
pub open spec fn strip_trailing(s: Seq<char>, c: char) -> Seq<char>
    decreases s.len(),
{
    if s.len() > 0 && s.last() == c {
        strip_trailing(s.drop_last(), c)
    } else {
        s
    }
}

/// One event of the line editor.
pub enum ReplInput {
    /// A line was entered.
    Line(String),
    /// Ctrl-C.
    Interrupted,
    /// Ctrl-D.
    Eof,
    /// The editor failed, with this message.
    Failed(String),
}

/// What the shell does in answer to an event.
pub enum ReplAction {
    /// `\q`, `quit` or `exit`: say goodbye and stop.
    Quit,
    /// End of input: say goodbye and stop.
    EndOfInput,
    /// The editor failed: report it and stop.
    ReadFailed(String),
    /// `\?` or `\help`.
    ShowHelp,
    /// `\c <db>`: switch database.
    SwitchDatabase(String),
    /// `\l`, `\dt`, `\d`, `\d <table>`: run this statement, errors ignored.
    RunQuiet(String),
    /// The line was kept (and goes to history); the statement goes on.
    Continue,
    /// The line (which goes to history) ended a statement: run it, timed.
    Execute(String),
    /// The line (which goes to history) ended an empty statement.
    Skip,
    /// Ctrl-C with a statement pending: it is dropped.
    Cancelled,
    /// Ctrl-C with nothing pending: remind how to quit.
    QuitHint,
}

/// The meaning of an action, with strings as character sequences.
pub enum ReplOutcome {
    Quit,
    EndOfInput,
    ReadFailed(Seq<char>),
    ShowHelp,
    SwitchDatabase(Seq<char>),
    RunQuiet(Seq<char>),
    Continue,
    Execute(Seq<char>),
    Skip,
    Cancelled,
    QuitHint,
}

impl View for ReplAction {
    type V = ReplOutcome;

    open spec fn view(&self) -> ReplOutcome {
        match self {
            ReplAction::Quit => ReplOutcome::Quit,
            ReplAction::EndOfInput => ReplOutcome::EndOfInput,
            ReplAction::ReadFailed(e) => ReplOutcome::ReadFailed(e@),
            ReplAction::ShowHelp => ReplOutcome::ShowHelp,
            ReplAction::SwitchDatabase(d) => ReplOutcome::SwitchDatabase(d@),
            ReplAction::RunQuiet(s) => ReplOutcome::RunQuiet(s@),
            ReplAction::Continue => ReplOutcome::Continue,
            ReplAction::Execute(s) => ReplOutcome::Execute(s@),
            ReplAction::Skip => ReplOutcome::Skip,
            ReplAction::Cancelled => ReplOutcome::Cancelled,
            ReplAction::QuitHint => ReplOutcome::QuitHint,
        }
    }
}

/// An event of the line editor, with strings as character sequences.
pub enum ReplEvent {
    Line(Seq<char>),
    Interrupted,
    Eof,
    Failed(Seq<char>),
}

impl View for ReplInput {
    type V = ReplEvent;

    open spec fn view(&self) -> ReplEvent {
        match self {
            ReplInput::Line(l) => ReplEvent::Line(l@),
            ReplInput::Interrupted => ReplEvent::Interrupted,
            ReplInput::Eof => ReplEvent::Eof,
            ReplInput::Failed(e) => ReplEvent::Failed(e@),
        }
    }
}

/// The meta-command a trimmed line stands for, when the buffer is blank.
pub open spec fn meta_command(t: Seq<char>) -> Option<ReplOutcome> {
    if t == "\\q"@ || t == "quit"@ || t == "exit"@ {
        Some(ReplOutcome::Quit)
    } else if t == "\\?"@ || t == "\\help"@ {
        Some(ReplOutcome::ShowHelp)
    } else if starts_with(t, "\\c "@) {
        Some(ReplOutcome::SwitchDatabase(trim(t.skip(3))))
    } else if t == "\\l"@ {
        Some(ReplOutcome::RunQuiet("SHOW DATABASES"@))
    } else if t == "\\dt"@ || t == "\\d"@ {
        Some(ReplOutcome::RunQuiet("SHOW TABLES"@))
    } else if starts_with(t, "\\d "@) {
        Some(ReplOutcome::RunQuiet(on_identifier("DESCRIBE "@, trim(t.skip(3)))))
    } else {
        None
    }
}

/// The buffer once `line` is added to it.
pub open spec fn appended(buf: Seq<char>, line: Seq<char>) -> Seq<char> {
    if buf.len() > 0 {
        buf + "\n"@ + line
    } else {
        line
    }
}

/// A buffer whose trimmed end is `;` holds a complete statement.
pub open spec fn statement_complete(buf: Seq<char>) -> bool {
    let t = trim_end(buf);
    t.len() > 0 && t.last() == ';'
}

/// The statement of a complete buffer: trimmed, without its final `;`s,
/// trimmed again.
pub open spec fn statement_of(buf: Seq<char>) -> Seq<char> {
    trim(strip_trailing(trim(buf), ';'))
}

/// One step of the shell: from the pending buffer and an event, the new
/// buffer and what to do.
pub open spec fn repl_step(buf: Seq<char>, event: ReplEvent) -> (Seq<char>, ReplOutcome) {
    match event {
        ReplEvent::Line(line) => {
            let meta = meta_command(trim(line));
            if is_blank(buf) && meta is Some {
                (buf, meta->0)
            } else {
                let nb = appended(buf, line);
                if statement_complete(nb) {
                    let sql = statement_of(nb);
                    (Seq::empty(), if sql.len() == 0 { ReplOutcome::Skip } else { ReplOutcome::Execute(sql) })
                } else {
                    (nb, ReplOutcome::Continue)
                }
            }
        },
        ReplEvent::Interrupted => if is_blank(buf) {
            (buf, ReplOutcome::QuitHint)
        } else {
            (Seq::empty(), ReplOutcome::Cancelled)
        },
        ReplEvent::Eof => (buf, ReplOutcome::EndOfInput),
        ReplEvent::Failed(e) => (buf, ReplOutcome::ReadFailed(e)),
    }
}

/// The state of the interactive shell: the statement typed so far.
pub struct Repl {
    pub buf: String,
}

proof fn lemma_trim_empty_blank(s: Seq<char>)
    ensures
        (trim(s).len() == 0) == is_blank(s),
{
    crate::text::lemma_trim_blank(s);
}

fn strip_trailing_end(v: &Vec<char>, from: usize, to: usize, c: char) -> (k: usize)
    requires
        from <= to <= v.len(),
    ensures
        from <= k <= to,
        v@.subrange(from as int, k as int) == strip_trailing(v@.subrange(from as int, to as int), c),
{
    let mut k = to;
    while k > from && v[k - 1] == c
        invariant
            from <= k <= to <= v.len(),
            strip_trailing(v@.subrange(from as int, k as int), c) == strip_trailing(
                v@.subrange(from as int, to as int),
                c,
            ),
        decreases k - from,
    {
        assert(v@.subrange(from as int, k as int).drop_last() =~= v@.subrange(from as int, k - 1));
        k -= 1;
    }
    k
}

impl Repl {
    pub fn new() -> (r: Repl)
        ensures
            r.buf@ == Seq::<char>::empty(),
    {
        Repl { buf: String::new() }
    }

    /// Whether a statement is pending; the prompt shows it.
    pub fn is_continuation(&self) -> (b: bool)
        ensures
            b == !is_blank(self.buf@),
    {
        let t = trim_str(self.buf.as_str());
        proof {
            lemma_trim_empty_blank(self.buf@);
        }
        t.unicode_len() != 0
    }

    fn meta(t: &str) -> (r: Option<ReplAction>)
        ensures
            match r {
                Some(a) => meta_command(t@) == Some(a@),
                None => meta_command(t@) is None,
            },
    {
        if str_eq(t, "\\q") || str_eq(t, "quit") || str_eq(t, "exit") {
            return Some(ReplAction::Quit);
        }
        if str_eq(t, "\\?") || str_eq(t, "\\help") {
            return Some(ReplAction::ShowHelp);
        }
        if starts_with_str(t, "\\c ") {
            proof {
                reveal_strlit("\\c ");
            }
            let rest = t.substring_char(3, t.unicode_len());
            assert(rest@ =~= t@.skip(3));
            return Some(ReplAction::SwitchDatabase(trim_str(rest)));
        }
        if str_eq(t, "\\l") {
            return Some(ReplAction::RunQuiet(String::from_str("SHOW DATABASES")));
        }
        if str_eq(t, "\\dt") || str_eq(t, "\\d") {
            return Some(ReplAction::RunQuiet(String::from_str("SHOW TABLES")));
        }
        if starts_with_str(t, "\\d ") {
            proof {
                reveal_strlit("\\d ");
            }
            let rest = t.substring_char(3, t.unicode_len());
            assert(rest@ =~= t@.skip(3));
            let table = trim_str(rest);
            return Some(ReplAction::RunQuiet(crate::statements::describe_statement(table.as_str())));
        }
        None
    }

    /// Takes one event of the line editor.
    pub fn step(&mut self, input: ReplInput) -> (a: ReplAction)
        ensures
            (final(self).buf@, a@) == repl_step(old(self).buf@, input@),
    {
        proof {
            lemma_trim_empty_blank(self.buf@);
        }
        match input {
            ReplInput::Line(line) => {
                let blank = !self.is_continuation();
                if blank {
                    let t = trim_str(line.as_str());
                    if let Some(a) = Self::meta(t.as_str()) {
                        return a;
                    }
                }
                let mut nb = String::new();
                if self.buf.unicode_len() > 0 {
                    push_str(&mut nb, self.buf.as_str());
                    push_str(&mut nb, "\n");
                }
                push_str(&mut nb, line.as_str());
                assert(nb@ =~= appended(old(self).buf@, line@));
                let te = trim_end_str(nb.as_str());
                if ends_with_char(te.as_str(), ';') {
                    let v = chars_of(nb.as_str());
                    let (a, b) = trim_bounds(&v, 0, v.len());
                    let e = strip_trailing_end(&v, a, b, ';');
                    let (x, y) = trim_bounds(&v, a, e);
                    assert(v@.subrange(0, v@.len() as int) =~= v@);
                    let sql = string_of(&v, x, y);
                    self.buf = String::new();
                    if sql.unicode_len() == 0 {
                        ReplAction::Skip
                    } else {
                        ReplAction::Execute(sql)
                    }
                } else {
                    self.buf = nb;
                    ReplAction::Continue
                }
            },
            ReplInput::Interrupted => {
                if self.is_continuation() {
                    self.buf = String::new();
                    ReplAction::Cancelled
                } else {
                    ReplAction::QuitHint
                }
            },
            ReplInput::Eof => ReplAction::EndOfInput,
            ReplInput::Failed(e) => ReplAction::ReadFailed(e),
        }
    }
}

} // verus!
