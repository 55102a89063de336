//! The `admin` command: cluster nodes, tablets, routine load jobs and FE
//! configuration.
use vstd::prelude::*;
use crate::text::push_str;
use crate::output::ResultSet;

verus! {

/// The admin subcommands.
#[allow(inconsistent_fields)]
pub enum AdminCmd {
    /// Show backend nodes.
    Backends,
    /// Show frontend nodes.
    Frontends,
    /// Show tablets for a table.
    Tablets { table: String, db: Option<String> },
    /// Manage load jobs.
    Jobs { action: JobsCmd },
    /// Get or set FE configuration.
    Config { action: ConfigCmd },
}

/// Routine load job subcommands.
#[allow(inconsistent_fields)]
pub enum JobsCmd {
    /// List load jobs.
    List { db: Option<String> },
    /// Pause a routine load job.
    Pause { id: String },
    /// Resume a routine load job.
    Resume { id: String },
    /// Cancel a routine load job.
    Cancel { id: String },
}

/// The database `jobs list` switches to: only the one given on the command
/// line (not the profile's).
pub fn jobs_database(cmd: &JobsCmd) -> (d: Option<String>)
    ensures
        match cmd {
            JobsCmd::List { db } => d == *db,
            _ => d is None,
        },
{
    match cmd {
        JobsCmd::List { db } => crate::http::clone_opt(db),
        _ => None,
    }
}

/// FE configuration subcommands.
pub enum ConfigCmd {
    /// Get a configuration value.
    Get { key: String },
    /// Set a configuration value.
    SetValue { key: String, value: String },
}

/// The statement that changes a routine load job, and what is said once it
/// ran; none for `list`.
pub open spec fn job_change(cmd: JobsCmd) -> Option<(Seq<char>, Seq<char>)> {
    match cmd {
        JobsCmd::List { .. } => None,
        JobsCmd::Pause { id } => Some(("PAUSE ROUTINE LOAD FOR "@ + id@, "Job "@ + id@ + " paused."@)),
        JobsCmd::Resume { id } => Some(("RESUME ROUTINE LOAD FOR "@ + id@, "Job "@ + id@ + " resumed."@)),
        JobsCmd::Cancel { id } => Some(("STOP ROUTINE LOAD FOR "@ + id@, "Job "@ + id@ + " cancelled."@)),
    }
}

fn concat2(a: &str, b: &str) -> (s: String)
    ensures
        s@ == a@ + b@,
{
    let mut s = String::from_str(a);
    push_str(&mut s, b);
    s
}

fn concat3(a: &str, b: &str, c: &str) -> (s: String)
    ensures
        s@ == a@ + b@ + c@,
{
    let mut s = String::from_str(a);
    push_str(&mut s, b);
    push_str(&mut s, c);
    s
}

pub fn job_statement(cmd: &JobsCmd) -> (r: Option<(String, String)>)
    ensures
        match r {
            Some((s, m)) => job_change(*cmd) == Some((s@, m@)),
            None => job_change(*cmd) is None,
        },
{
    match cmd {
        JobsCmd::List { .. } => None,
        JobsCmd::Pause { id } => Some(
            (concat2("PAUSE ROUTINE LOAD FOR ", id.as_str()), concat3("Job ", id.as_str(), " paused.")),
        ),
        JobsCmd::Resume { id } => Some(
            (concat2("RESUME ROUTINE LOAD FOR ", id.as_str()), concat3("Job ", id.as_str(), " resumed.")),
        ),
        JobsCmd::Cancel { id } => Some(
            (concat2("STOP ROUTINE LOAD FOR ", id.as_str()), concat3("Job ", id.as_str(), " cancelled.")),
        ),
    }
}

/// The REST path that reads or sets an FE configuration item.
pub open spec fn config_path_spec(cmd: ConfigCmd) -> Seq<char> {
    match cmd {
        ConfigCmd::Get { key } => "/api/_get_config?conf_item="@ + key@,
        ConfigCmd::SetValue { key, value } => "/api/_set_config?"@ + key@ + "="@ + value@,
    }
}

pub fn config_path(cmd: &ConfigCmd) -> (p: String)
    ensures
        p@ == config_path_spec(*cmd),
{
    match cmd {
        ConfigCmd::Get { key } => concat2("/api/_get_config?conf_item=", key.as_str()),
        ConfigCmd::SetValue { key, value } => {
            let mut p = concat3("/api/_set_config?", key.as_str(), "=");
            push_str(&mut p, value.as_str());
            p
        },
    }
}

/// What the backends endpoint says of one backend, as far as it is read:
/// `isAlive` and the capacities when they are JSON strings, and the JSON text
/// of `tabletNum` (`null` when missing).
pub struct BackendInfo {
    pub host: String,
    pub is_alive: Option<String>,
    pub tablet_num: String,
    pub data_used_capacity: Option<String>,
    pub total_capacity: Option<String>,
}

pub open spec fn or_default(o: Option<String>, d: Seq<char>) -> Seq<char> {
    match o {
        Some(s) => s@,
        None => d,
    }
}

/// The row shown for one backend.
pub open spec fn backend_row(b: BackendInfo) -> Seq<Seq<char>> {
    seq![
        b.host@,
        or_default(b.is_alive, Seq::empty()),
        b.tablet_num@,
        or_default(b.data_used_capacity, "0"@),
        or_default(b.total_capacity, "0"@),
    ]
}

fn or_default_exec(o: &Option<String>, d: &str) -> (s: String)
    ensures
        s@ == or_default(*o, d@),
{
    match o {
        Some(s) => s.clone(),
        None => String::from_str(d),
    }
}

/// The table of backends, one row each, in the order given.
pub fn backends_table(backends: &Vec<BackendInfo>) -> (r: ResultSet)
    ensures
        r.columns.deep_view() == seq![
            "Host"@,
            "Alive"@,
            "TabletNum"@,
            "DataUsedCapacity"@,
            "TotalCapacity"@,
        ],
        r.rows@.len() == backends@.len(),
        forall|i: int| 0 <= i < backends@.len() ==> (#[trigger] r.rows@[i]).deep_view() == backend_row(backends@[i]),
{
    proof {
        reveal_strlit("");
    }
    let mut cols = Vec::new();
    cols.push(String::from_str("Host"));
    cols.push(String::from_str("Alive"));
    cols.push(String::from_str("TabletNum"));
    cols.push(String::from_str("DataUsedCapacity"));
    cols.push(String::from_str("TotalCapacity"));
    let mut rows: Vec<Vec<String>> = Vec::new();
    let mut i: usize = 0;
    while i < backends.len()
        invariant
            i <= backends@.len(),
            rows@.len() == i,
            forall|k: int| 0 <= k < i ==> (#[trigger] rows@[k]).deep_view() == backend_row(backends@[k]),
        decreases backends@.len() - i,
    {
        proof {
            reveal_strlit("");
        }
        let b = &backends[i];
        let mut row = Vec::new();
        row.push(b.host.clone());
        row.push(or_default_exec(&b.is_alive, ""));
        row.push(b.tablet_num.clone());
        row.push(or_default_exec(&b.data_used_capacity, "0"));
        row.push(or_default_exec(&b.total_capacity, "0"));
        assert(row@.len() == 5);
        assert(row@[0]@ == b.host@);
        assert(row@[1]@ == or_default(b.is_alive, Seq::empty()));
        assert(row@[2]@ == b.tablet_num@);
        assert(row.deep_view() =~= backend_row(*b));
        rows.push(row);
        i += 1;
    }
    assert(cols.deep_view() =~= seq![
        "Host"@,
        "Alive"@,
        "TabletNum"@,
        "DataUsedCapacity"@,
        "TotalCapacity"@,
    ]);
    ResultSet::new(cols, rows)
}

/// What is printed when a listing has no rows.
pub fn empty_listing(what: &AdminCmd) -> (m: &'static str)
    ensures
        m@ == (match what {
            AdminCmd::Frontends => "(no frontends)"@,
            AdminCmd::Tablets { .. } => "(no tablets)"@,
            _ => "(no routine load jobs)"@,
        }),
{
    match what {
        AdminCmd::Frontends => "(no frontends)",
        AdminCmd::Tablets { .. } => "(no tablets)",
        _ => "(no routine load jobs)",
    }
}

} // verus!
