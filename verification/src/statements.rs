//! SQL statements built from names the user gives, and the choice of the
//! database a command runs in.
use vstd::prelude::*;
use crate::text::push_str;

verus! {

/// `<verb> `<name>``: a statement on one back-quoted identifier.
pub open spec fn on_identifier(verb: Seq<char>, name: Seq<char>) -> Seq<char> {
    verb + "`"@ + name + "`"@
}

fn identifier_statement(verb: &str, name: &str) -> (s: String)
    ensures
        s@ == on_identifier(verb@, name@),
{
    let mut s = String::from_str(verb);
    push_str(&mut s, "`");
    push_str(&mut s, name);
    push_str(&mut s, "`");
    s
}

/// `USE `db``.
pub fn use_statement(db: &str) -> (s: String)
    ensures
        s@ == on_identifier("USE "@, db@),
{
    identifier_statement("USE ", db)
}

/// `DESCRIBE `table``.
pub fn describe_statement(table: &str) -> (s: String)
    ensures
        s@ == on_identifier("DESCRIBE "@, table@),
{
    identifier_statement("DESCRIBE ", table)
}

/// `SHOW CREATE TABLE `table``.
pub fn show_create_table_statement(table: &str) -> (s: String)
    ensures
        s@ == on_identifier("SHOW CREATE TABLE "@, table@),
{
    identifier_statement("SHOW CREATE TABLE ", table)
}

/// `SHOW TABLETS FROM `table``.
pub fn show_tablets_statement(table: &str) -> (s: String)
    ensures
        s@ == on_identifier("SHOW TABLETS FROM "@, table@),
{
    identifier_statement("SHOW TABLETS FROM ", table)
}

/// The database a command switches to: the one asked for, else the
/// profile's, else none.
pub open spec fn chosen_database(requested: Option<String>, profile_db: Option<String>) -> Option<String> {
    match requested {
        Some(d) => Some(d),
        None => profile_db,
    }
}

pub fn select_database(requested: &Option<String>, profile_db: &Option<String>) -> (d: Option<String>)
    ensures
        d == chosen_database(*requested, *profile_db),
{
    match requested {
        Some(d) => Some(d.clone()),
        None => crate::http::clone_opt(profile_db),
    }
}

/// Why a `DESCRIBE` result cannot be turned into DDL.
pub enum DescribeError {
    /// The table has no columns, or does not exist.
    NoColumns(String),
    /// A row lacks a cell that the column headers point at.
    MissingCell,
}

impl DescribeError {
    pub open spec fn message_spec(self) -> Seq<char> {
        match self {
            DescribeError::NoColumns(t) => "Table '"@ + t@ + "' not found or has no columns."@,
            DescribeError::MissingCell => "DESCRIBE returned a row without the expected cells."@,
        }
    }

    pub fn message(&self) -> (m: String)
        ensures
            m@ == self.message_spec(),
    {
        match self {
            DescribeError::NoColumns(t) => {
                let mut m = String::from_str("Table '");
                push_str(&mut m, t.as_str());
                push_str(&mut m, "' not found or has no columns.");
                m
            },
            DescribeError::MissingCell => String::from_str(
                "DESCRIBE returned a row without the expected cells.",
            ),
        }
    }
}

} // verus!
