//! The one steady-state operation: report the service's own version together
//! with the database server's version as read at call time. The database
//! round-trip happens outside the library; its outcome — a version row, no
//! row, or a failure — is handed in as a plain value, and this module decides
//! what the caller is answered. Each call is a function of its own outcome
//! alone: nothing carries over from one call to the next.

use vstd::prelude::*;

verus! {

/// The successful answer: the service's build identifier and the server
/// version the database reported for this very call.
pub struct VersionInfo {
    pub version: String,
    pub database: String,
}

/// Why a version query failed: the round-trip itself failed (connection
/// acquisition or query, with the reported message), or the query came back
/// without a row.
#[derive(Debug)]
pub enum QueryError {
    Unavailable(String),
    NoRow,
}

/// A round-trip outcome that yields an answer: the query succeeded and
/// returned a row.
pub open spec fn query_succeeds(outcome: Result<Option<String>, String>) -> bool {
    outcome matches Ok(Some(_))
}

/// Builds the version answer from this call's round-trip outcome. Succeeds
/// exactly when the round-trip produced a row; a missing row and a failed
/// round-trip each surface as their own error, and the failure affects this
/// call alone.
pub fn version_info(app_version: &str, outcome: Result<Option<String>, String>) -> (r: Result<
    VersionInfo,
    QueryError,
>)
    ensures
        r is Ok <==> query_succeeds(outcome),
        outcome matches Ok(Some(s)) ==> (r matches Ok(v) && v.version@ == app_version@
            && v.database@ == s@),
        outcome matches Ok(None) ==> (r matches Err(e) && e is NoRow),
        outcome matches Err(m) ==> (r matches Err(e) && (e matches QueryError::Unavailable(mm)
            && mm@ == m@)),
        (outcome matches Ok(Some(s)) && app_version@.len() > 0 && s@.len() > 0)
            ==> (r matches Ok(v) && v.version@.len() > 0 && v.database@.len() > 0),
{
    match outcome {
        Ok(Some(s)) => Ok(VersionInfo { version: String::from_str(app_version), database: s }),
        Ok(None) => Err(QueryError::NoRow),
        Err(m) => Err(QueryError::Unavailable(m)),
    }
}

impl QueryError {
    /// The human-readable message the request layer answers with.
    pub fn message(&self) -> (r: String)
        ensures
            self matches QueryError::Unavailable(m) ==> r@ == m@,
            self is NoRow ==> r@ == "No version returned"@,
    {
        match self {
            QueryError::Unavailable(m) => String::from_str(m.as_str()),
            QueryError::NoRow => String::from_str("No version returned"),
        }
    }
}

} // verus!
