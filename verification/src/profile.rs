//! The `profile` command: adding, listing, choosing and removing profiles.
use vstd::prelude::*;
use crate::config::{Config, Profile, AddOutcome, entry_names, strictly_sorted, or_empty};
use crate::text::{push_str, u64_to_string, decimal, str_eq};
use crate::output::{render_table, table_layout};

verus! {

/// The profile subcommands.
#[allow(inconsistent_fields)]
pub enum ProfileCmd {
    /// Add or update a connection profile.
    Add {
        name: String,
        fe_host: String,
        mysql_port: u16,
        http_port: u16,
        user: String,
        password: Option<String>,
        database: Option<String>,
    },
    /// List all profiles.
    List,
    /// Set the default profile.
    Use { name: String },
    /// Remove a profile (prompts for confirmation unless `yes`).
    Remove { name: String, yes: bool },
    /// Test connectivity of a profile.
    Test { name: Option<String> },
}

/// The header of the profile listing.
pub open spec fn list_header() -> Seq<Seq<char>> {
    seq!["Name"@, "Host"@, "MySQL Port"@, "HTTP Port"@, "User"@, "Database"@, "Default"@]
}

/// The listing row of the profile `name`; `default` is the default
/// profile's name, empty when there is none.
pub open spec fn list_row(name: Seq<char>, p: Profile, default: Seq<char>) -> Seq<Seq<char>> {
    seq![
        name,
        p.fe_host@,
        decimal(p.mysql_port as nat),
        decimal(p.http_port as nat),
        p.user@,
        match p.database {
            Some(d) => d@,
            None => "—"@,
        },
        if name == default { "✓"@ } else { Seq::empty() },
    ]
}

/// What `profile list` prints when there are no profiles.
pub open spec fn no_profiles_message() -> Seq<char> {
    "No profiles configured. Run `dorisctl profile add <name>` to create one."@
}

/// What `profile list` prints: a table of every profile, in name order, or
/// a hint when there is none.
pub fn profile_list_text(cfg: &Config) -> (t: String)
    ensures
        cfg.profiles@ == Map::<Seq<char>, Profile>::empty() ==> t@ == no_profiles_message(),
        cfg.profiles@ != Map::<Seq<char>, Profile>::empty() ==> exists|names: Seq<Seq<char>>, rows: Seq<Seq<Seq<char>>>|
            #![trigger table_layout(list_header(), rows), strictly_sorted(names)]
            {
            &&& t@ == table_layout(list_header(), rows)
            &&& strictly_sorted(names)
            &&& names.len() == rows.len()
            &&& (forall|k: Seq<char>| #[trigger] cfg.profiles@.contains_key(k) <==> names.contains(k))
            &&& forall|i: int| 0 <= i < rows.len() ==> #[trigger] rows[i] == list_row(
                names[i],
                cfg.profiles@[names[i]],
                or_empty(cfg.defaults.profile),
            )
        },
{
    if cfg.profiles.is_empty() {
        return String::from_str("No profiles configured. Run `dorisctl profile add <name>` to create one.");
    }
    proof {
        reveal_strlit("");
    }
    let default: &str = match &cfg.defaults.profile {
        Some(d) => d.as_str(),
        None => "",
    };
    let entries = cfg.profiles.sorted_entries();
    let ghost names = entry_names(entries@);
    let mut header: Vec<String> = Vec::new();
    header.push(String::from_str("Name"));
    header.push(String::from_str("Host"));
    header.push(String::from_str("MySQL Port"));
    header.push(String::from_str("HTTP Port"));
    header.push(String::from_str("User"));
    header.push(String::from_str("Database"));
    header.push(String::from_str("Default"));
    assert(header.deep_view() =~= list_header());
    let mut rows: Vec<Vec<String>> = Vec::new();
    let mut i: usize = 0;
    while i < entries.len()
        invariant
            i <= entries@.len(),
            names == entry_names(entries@),
            default@ == or_empty(cfg.defaults.profile),
            rows@.len() == i,
            forall|k: int|
                0 <= k < i ==> (#[trigger] rows@[k]).deep_view() == list_row(
                    names[k],
                    entries@[k].1,
                    default@,
                ),
        decreases entries@.len() - i,
    {
        proof {
            reveal_strlit("");
        }
        let (name, p) = (&entries[i].0, &entries[i].1);
        let mut row: Vec<String> = Vec::new();
        row.push(name.clone());
        row.push(p.fe_host.clone());
        row.push(u64_to_string(p.mysql_port as u64));
        row.push(u64_to_string(p.http_port as u64));
        row.push(p.user.clone());
        row.push(match &p.database {
            Some(d) => d.clone(),
            None => String::from_str("—"),
        });
        row.push(if str_eq(name.as_str(), default) { String::from_str("✓") } else { String::new() });
        assert(row@.len() == 7);
        assert(row.deep_view() =~= list_row(names[i as int], entries@[i as int].1, default@));
        rows.push(row);
        i += 1;
    }
    let t = render_table(&header, &rows);
    proof {
        let rv = rows.deep_view();
        assert forall|k: Seq<char>| #[trigger] cfg.profiles@.contains_key(k) <==> names.contains(k) by {
            if cfg.profiles@.contains_key(k) {
                let j = choose|j: int| 0 <= j < entries@.len() && (#[trigger] entries@[j]).0@ == k;
                assert(names[j] == k);
            }
            if names.contains(k) {
                let j = choose|j: int| 0 <= j < names.len() && names[j] == k;
                assert(entries@[j].0@ == k);
            }
        }
        assert forall|j: int| 0 <= j < rv.len() implies #[trigger] rv[j] == list_row(
            names[j],
            cfg.profiles@[names[j]],
            or_empty(cfg.defaults.profile),
        ) by {
            assert(rv[j] == rows@[j].deep_view());
            assert(names[j] == entries@[j].0@);
        }
        assert(header.deep_view() == list_header());
        assert(t@ == table_layout(list_header(), rv));
        assert(strictly_sorted(names));
        assert(names.len() == rv.len());
    }
    t
}

/// The profile described by the arguments of `profile add`.
pub fn profile_from_args(
    fe_host: String,
    mysql_port: u16,
    http_port: u16,
    user: String,
    password: Option<String>,
    database: Option<String>,
) -> (p: Profile)
    ensures
        p.fe_host == fe_host,
        p.mysql_port == mysql_port,
        p.http_port == http_port,
        p.user == user,
        p.password == password,
        p.database == database,
{
    Profile { fe_host, mysql_port, http_port, user, password, database }
}

/// `<Added|Updated> profile '<name>'.`
pub fn added_message(outcome: &AddOutcome, name: &str) -> (m: String)
    ensures
        m@ == (if outcome.updated { "Updated"@ } else { "Added"@ }) + " profile '"@ + name@ + "'."@,
{
    let mut m = String::from_str(outcome.verb());
    push_str(&mut m, " profile '");
    push_str(&mut m, name);
    push_str(&mut m, "'.");
    m
}

/// `Default profile → '<name>'.`
pub fn default_set_message(name: &str) -> (m: String)
    ensures
        m@ == "Default profile → '"@ + name@ + "'."@,
{
    let mut m = String::from_str("Default profile → '");
    push_str(&mut m, name);
    push_str(&mut m, "'.");
    m
}

/// `Profile '<name>' removed.`
pub fn removed_message(name: &str) -> (m: String)
    ensures
        m@ == "Profile '"@ + name@ + "' removed."@,
{
    let mut m = String::from_str("Profile '");
    push_str(&mut m, name);
    push_str(&mut m, "' removed.");
    m
}

/// `Remove profile '<name>'?`
pub fn remove_prompt(name: &str) -> (m: String)
    ensures
        m@ == "Remove profile '"@ + name@ + "'?"@,
{
    let mut m = String::from_str("Remove profile '");
    push_str(&mut m, name);
    push_str(&mut m, "'?");
    m
}

/// `Testing <what> connection to <host>:<port> … `.
pub fn testing_message(what: &str, host: &str, port: u16) -> (m: String)
    ensures
        m@ == "Testing "@ + what@ + " connection to "@ + host@ + ":"@ + decimal(port as nat) + " … "@,
{
    let mut m = String::from_str("Testing ");
    push_str(&mut m, what);
    push_str(&mut m, " connection to ");
    push_str(&mut m, host);
    push_str(&mut m, ":");
    let p = u64_to_string(port as u64);
    push_str(&mut m, p.as_str());
    push_str(&mut m, " … ");
    m
}

} // verus!
