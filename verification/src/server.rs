//! Start-up decisions of the server: which database a URL selects, and the
//! Auth0 settings that the front end is served.
use crate::auth::{has_prefix, starts_with};
use vstd::prelude::*;
use vstd::string::*;

verus! {

/// The databases the server can run on.
#[derive(Debug, Clone, PartialEq)]
pub enum DatabaseKind {
    Sqlite,
    MySql,
    Postgres,
}

/// The database a URL selects, by its scheme prefix, checked in this order.
pub open spec fn spec_database_kind(url: Seq<char>) -> Option<DatabaseKind> {
    if starts_with(url, "sqlite:"@) {
        Some(DatabaseKind::Sqlite)
    } else if starts_with(url, "mysql:"@) {
        Some(DatabaseKind::MySql)
    } else if starts_with(url, "postgres:"@) {
        Some(DatabaseKind::Postgres)
    } else {
        None
    }
}

/// The database that `url` selects, or the message the server stops with.
pub fn database_kind(url: &str) -> (r: Result<DatabaseKind, String>)
    ensures
        match spec_database_kind(url@) {
            Some(k) => r == Ok::<DatabaseKind, String>(k),
            None => r matches Err(msg) && msg@ == "Unsupported database url: "@ + url@,
        },
        starts_with(url@, "sqlite:"@) ==> r == Ok::<DatabaseKind, String>(DatabaseKind::Sqlite),
        starts_with(url@, "mysql:"@) ==> r == Ok::<DatabaseKind, String>(DatabaseKind::MySql),
        starts_with(url@, "postgres:"@) ==> r == Ok::<DatabaseKind, String>(DatabaseKind::Postgres),
        r is Err <==> !(starts_with(url@, "sqlite:"@) || starts_with(url@, "mysql:"@)
            || starts_with(url@, "postgres:"@)),
{
    proof {
        lemma_scheme_decides_database(url@);
    }
    if has_prefix(url, "sqlite:") {
        Ok(DatabaseKind::Sqlite)
    } else if has_prefix(url, "mysql:") {
        Ok(DatabaseKind::MySql)
    } else if has_prefix(url, "postgres:") {
        Ok(DatabaseKind::Postgres)
    } else {
        let mut msg = String::from_str("Unsupported database url: ");
        msg.append(url);
        Err(msg)
    }
}

/// No URL selects two databases: the scheme prefixes exclude each other.
pub proof fn lemma_schemes_exclusive(url: Seq<char>)
    ensures
        !(starts_with(url, "sqlite:"@) && starts_with(url, "mysql:"@)),
        !(starts_with(url, "sqlite:"@) && starts_with(url, "postgres:"@)),
        !(starts_with(url, "mysql:"@) && starts_with(url, "postgres:"@)),
{
    reveal_strlit("sqlite:");
    reveal_strlit("mysql:");
    reveal_strlit("postgres:");
    if starts_with(url, "sqlite:"@) {
        assert(url[0] == url.subrange(0, 7)[0]);
    }
    if starts_with(url, "mysql:"@) {
        assert(url[0] == url.subrange(0, 6)[0]);
    }
    if starts_with(url, "postgres:"@) {
        assert(url[0] == url.subrange(0, 9)[0]);
    }
}

/// The scheme prefix alone decides the database, for URLs of any length: a URL
/// that starts with `sqlite:`, `mysql:` or `postgres:` selects that database, and
/// only a URL with none of these prefixes is refused.
pub proof fn lemma_scheme_decides_database(url: Seq<char>)
    ensures
        starts_with(url, "sqlite:"@) ==> spec_database_kind(url) == Some(DatabaseKind::Sqlite),
        starts_with(url, "mysql:"@) ==> spec_database_kind(url) == Some(DatabaseKind::MySql),
        starts_with(url, "postgres:"@) ==> spec_database_kind(url) == Some(DatabaseKind::Postgres),
        spec_database_kind(url) is None <==> !(starts_with(url, "sqlite:"@) || starts_with(
            url,
            "mysql:"@,
        ) || starts_with(url, "postgres:"@)),
{
    lemma_schemes_exclusive(url);
}

/// The Auth0 settings that the front end fetches.
#[derive(Debug, Clone, PartialEq)]
pub struct Auth0Config {
    pub domain: String,
    pub client_id: String,
    pub audience: String,
}

impl Auth0Config {
    pub fn new(domain: &str, client_id: &str, audience: &str) -> (c: Auth0Config)
        ensures
            c.domain@ == domain@,
            c.client_id@ == client_id@,
            c.audience@ == audience@,
    {
        Auth0Config {
            domain: String::from_str(domain),
            client_id: String::from_str(client_id),
            audience: String::from_str(audience),
        }
    }
}

} // verus!
