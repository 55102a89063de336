//! A connection to a Doris cluster as far as it is plain data: the profile
//! it was made from, and the REST client it hands out.
use vstd::prelude::*;
use crate::config::Profile;
use crate::http::HttpClient;

verus! {

/// The profile a connection is made from.  The MySQL pool that the
/// application opens lazily lives beside it.
pub struct Connection {
    pub profile: Profile,
}

impl Connection {
    pub fn new(profile: Profile) -> (c: Connection)
        ensures
            c.profile == profile,
    {
        Connection { profile }
    }

    /// The REST client for this profile.
    pub fn http(&self) -> (h: HttpClient)
        ensures
            h.base_url@ == self.profile.http_base_spec(),
            h.user@ == self.profile.user@,
            h.password == self.profile.password,
    {
        HttpClient::new(&self.profile)
    }

    /// The statement that switches to database `db`.
    pub fn use_db(&self, db: &str) -> (s: String)
        ensures
            s@ == crate::statements::on_identifier("USE "@, db@),
    {
        crate::statements::use_statement(db)
    }
}


/// The error of a failed MySQL connection, with a hint.
pub fn connect_failed(host: &str, port: u16, error: &str) -> (m: String)
    ensures
        m@ == "Failed to connect to Doris at "@ + host@ + ":"@ + crate::text::decimal(port as nat) + " — "@
            + error@ + "\nHint: check your profile with `dorisctl profile list`"@,
{
    let mut m = String::from_str("Failed to connect to Doris at ");
    crate::text::push_str(&mut m, host);
    crate::text::push_str(&mut m, ":");
    let p = crate::text::u64_to_string(port as u64);
    crate::text::push_str(&mut m, p.as_str());
    crate::text::push_str(&mut m, " — ");
    crate::text::push_str(&mut m, error);
    crate::text::push_str(&mut m, "\nHint: check your profile with `dorisctl profile list`");
    m
}

} // verus!
