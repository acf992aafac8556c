//! Connection configuration: the two distinct session configurations the
//! service uses. The bootstrap phase connects with administrative scope and
//! no selected database; the steady-state pool is scoped to the target
//! database. Both are held as plain values here; turning one into a live
//! connection is the caller's concern.

use vstd::prelude::*;

verus! {

/// A database session configuration: a socket path, a user name, and an
/// optionally pre-selected database.
pub struct ConnConfig {
    pub socket: String,
    pub user: String,
    pub database: Option<String>,
}

/// The socket path used when no explicit connection target is configured.
pub fn default_socket_path() -> (r: &'static str)
    ensures
        r@ == "/var/run/mysqld/mysqld.sock"@,
        r@.len() > 0,
{
    proof {
        reveal_strlit("/var/run/mysqld/mysqld.sock");
    }
    "/var/run/mysqld/mysqld.sock"
}

/// The name of the target database that bootstrap creates and the query
/// service is scoped to.
pub fn database_name() -> (r: &'static str)
    ensures
        r@ == "zetteln"@,
        r@.len() > 0,
{
    proof {
        reveal_strlit("zetteln");
    }
    "zetteln"
}

/// The administrative user name used for both sessions.
pub fn admin_user() -> (r: &'static str)
    ensures
        r@ == "root"@,
        r@.len() > 0,
{
    proof {
        reveal_strlit("root");
    }
    "root"
}

impl ConnConfig {
    /// The bootstrap-phase configuration: administrative user, no selected
    /// database, so that the target database can be created first.
    pub fn admin(socket: String) -> (c: ConnConfig)
        ensures
            c.socket@ == socket@,
            c.user@ == "root"@,
            c.database is None,
    {
        ConnConfig { socket, user: String::from_str(admin_user()), database: None }
    }

    /// The steady-state configuration: same endpoint and user, with the
    /// target database fixed for the lifetime of the pool.
    pub fn app(socket: String) -> (c: ConnConfig)
        ensures
            c.socket@ == socket@,
            c.user@ == "root"@,
            c.database matches Some(d) && d@ == "zetteln"@,
    {
        ConnConfig {
            socket,
            user: String::from_str(admin_user()),
            database: Some(String::from_str(database_name())),
        }
    }
}

} // verus!
