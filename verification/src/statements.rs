//! The fixed SQL statements the service issues, one function each, with the
//! exact text pinned in the contract. The schema-changing statements are
//! conditional (`IF NOT EXISTS`) so that re-applying them is a no-op.

use vstd::prelude::*;
use crate::bootstrap::BootstrapAction;

verus! {

/// Reads the server's reported version string.
pub fn sql_server_version() -> (r: &'static str)
    ensures
        r@ == "SELECT @@version"@,
{
    "SELECT @@version"
}

/// Creates the target database; a no-op when it already exists.
pub fn sql_create_database() -> (r: &'static str)
    ensures
        r@ == "CREATE DATABASE IF NOT EXISTS zetteln"@,
{
    "CREATE DATABASE IF NOT EXISTS zetteln"
}

/// Selects the target database for the rest of the session.
pub fn sql_select_database() -> (r: &'static str)
    ensures
        r@ == "USE zetteln"@,
{
    "USE zetteln"
}

/// Creates the notes table; a no-op when it already exists. `id` is the
/// caller-supplied primary key, `title` is mandatory, `content` optional,
/// and the two timestamps are maintained by the server.
pub fn sql_create_table() -> (r: &'static str)
    ensures
        r@ == "CREATE TABLE IF NOT EXISTS notes (id VARCHAR(36) PRIMARY KEY, title VARCHAR(255) NOT NULL, content TEXT, created_at DATETIME DEFAULT CURRENT_TIMESTAMP, updated_at DATETIME DEFAULT CURRENT_TIMESTAMP ON UPDATE CURRENT_TIMESTAMP)"@,
{
    "CREATE TABLE IF NOT EXISTS notes (id VARCHAR(36) PRIMARY KEY, title VARCHAR(255) NOT NULL, content TEXT, created_at DATETIME DEFAULT CURRENT_TIMESTAMP, updated_at DATETIME DEFAULT CURRENT_TIMESTAMP ON UPDATE CURRENT_TIMESTAMP)"
}

/// Reads the current row count of the notes table.
pub fn sql_count_rows() -> (r: &'static str)
    ensures
        r@ == "SELECT COUNT(*) FROM notes"@,
{
    "SELECT COUNT(*) FROM notes"
}

/// Inserts the one fixed demonstration row.
pub fn sql_insert_seed() -> (r: &'static str)
    ensures
        r@ == "INSERT INTO notes (id, title, content) VALUES ('demo-1', 'Welcome to Zetteln', 'This is your first note in the zettelkasten system!')"@,
{
    "INSERT INTO notes (id, title, content) VALUES ('demo-1', 'Welcome to Zetteln', 'This is your first note in the zettelkasten system!')"
}

/// The SQL text behind a bootstrap action; only opening the connection
/// issues no statement.
pub fn statement_for(a: BootstrapAction) -> (r: Option<&'static str>)
    ensures
        a == BootstrapAction::Connect <==> r is None,
        a == BootstrapAction::QueryServerVersion ==> (r matches Some(s) && s@ == "SELECT @@version"@),
        a == BootstrapAction::ExecCreateDatabase ==> (r matches Some(s) && s@ == "CREATE DATABASE IF NOT EXISTS zetteln"@),
        a == BootstrapAction::ExecSelectDatabase ==> (r matches Some(s) && s@ == "USE zetteln"@),
        a == BootstrapAction::ExecCreateTable ==> (r matches Some(s) && s@ == "CREATE TABLE IF NOT EXISTS notes (id VARCHAR(36) PRIMARY KEY, title VARCHAR(255) NOT NULL, content TEXT, created_at DATETIME DEFAULT CURRENT_TIMESTAMP, updated_at DATETIME DEFAULT CURRENT_TIMESTAMP ON UPDATE CURRENT_TIMESTAMP)"@),
        a == BootstrapAction::QueryRowCount ==> (r matches Some(s) && s@ == "SELECT COUNT(*) FROM notes"@),
        a == BootstrapAction::ExecInsertSeed ==> (r matches Some(s) && s@ == "INSERT INTO notes (id, title, content) VALUES ('demo-1', 'Welcome to Zetteln', 'This is your first note in the zettelkasten system!')"@),
{
    match a {
        BootstrapAction::Connect => None,
        BootstrapAction::QueryServerVersion => Some(sql_server_version()),
        BootstrapAction::ExecCreateDatabase => Some(sql_create_database()),
        BootstrapAction::ExecSelectDatabase => Some(sql_select_database()),
        BootstrapAction::ExecCreateTable => Some(sql_create_table()),
        BootstrapAction::QueryRowCount => Some(sql_count_rows()),
        BootstrapAction::ExecInsertSeed => Some(sql_insert_seed()),
    }
}

} // verus!
