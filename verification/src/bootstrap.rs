//! The bootstrap sequence that brings a freshly provisioned database into a
//! known state before the service serves traffic: ensure the database, its
//! schema and the seed row exist, in a fixed fail-fast order.
//!
//! The sequence is a state machine over plain values. A runner performs one
//! pending action at a time (opening the administrative connection, issuing
//! one SQL statement) and reports the outcome back as an event; the machine
//! decides what comes next. Every decision — the order of the steps, aborting
//! on the first failure, seeding only when the table was observed empty — is
//! made here and proved; the runner only carries actions out.

use vstd::prelude::*;

verus! {

/// The phase the bootstrap sequence is in, named after the step it is
/// waiting on. `Done` and `Failed` are terminal.
#[derive(Clone, Copy, PartialEq, Eq, Structural, Debug)]
pub enum BootstrapState {
    Connecting,
    ReadingVersion,
    CreatingDatabase,
    SelectingDatabase,
    CreatingTable,
    CountingRows,
    Seeding,
    Done,
    Failed,
}

/// One step the runner is asked to perform against the server.
#[derive(Clone, Copy, PartialEq, Eq, Structural, Debug)]
pub enum BootstrapAction {
    /// Open an administrative connection with no database selected.
    Connect,
    /// Read the server's reported version string (diagnostic only).
    QueryServerVersion,
    /// Create the target database if it does not exist.
    ExecCreateDatabase,
    /// Select the target database for the rest of the session.
    ExecSelectDatabase,
    /// Create the notes table if it does not exist.
    ExecCreateTable,
    /// Read the current row count of the notes table.
    QueryRowCount,
    /// Insert the one fixed seed row.
    ExecInsertSeed,
}

/// The outcome of one performed action, reported back by the runner.
#[derive(Debug)]
pub enum BootstrapEvent {
    /// The action completed and carried no result value.
    Succeeded,
    /// The server's version string came back.
    ServerVersion(String),
    /// The row count of the notes table came back.
    RowCount(u64),
    /// The seed insert hit the primary-key constraint: a concurrent
    /// bootstrap observed the same empty table and seeded first. The race
    /// is accepted and this outcome is not fatal.
    SeedAlreadyPresent,
    /// The action failed for any other reason.
    Failure,
}

/// The action still pending in a given phase; none once the sequence is
/// done or has failed.
pub open spec fn spec_pending(s: BootstrapState) -> Option<BootstrapAction> {
    match s {
        BootstrapState::Connecting => Some(BootstrapAction::Connect),
        BootstrapState::ReadingVersion => Some(BootstrapAction::QueryServerVersion),
        BootstrapState::CreatingDatabase => Some(BootstrapAction::ExecCreateDatabase),
        BootstrapState::SelectingDatabase => Some(BootstrapAction::ExecSelectDatabase),
        BootstrapState::CreatingTable => Some(BootstrapAction::ExecCreateTable),
        BootstrapState::CountingRows => Some(BootstrapAction::QueryRowCount),
        BootstrapState::Seeding => Some(BootstrapAction::ExecInsertSeed),
        BootstrapState::Done => None,
        BootstrapState::Failed => None,
    }
}

/// The transition relation of the sequence. Any failure, and any outcome
/// that does not fit the phase, is fatal; a count of zero routes through the
/// seeding phase, any other count skips it; losing the seeding race to a
/// concurrent bootstrap still completes the sequence.
pub open spec fn spec_advance(s: BootstrapState, e: BootstrapEvent) -> BootstrapState {
    match (s, e) {
        (BootstrapState::Connecting, BootstrapEvent::Succeeded) => BootstrapState::ReadingVersion,
        (BootstrapState::ReadingVersion, BootstrapEvent::ServerVersion(_)) => BootstrapState::CreatingDatabase,
        (BootstrapState::CreatingDatabase, BootstrapEvent::Succeeded) => BootstrapState::SelectingDatabase,
        (BootstrapState::SelectingDatabase, BootstrapEvent::Succeeded) => BootstrapState::CreatingTable,
        (BootstrapState::CreatingTable, BootstrapEvent::Succeeded) => BootstrapState::CountingRows,
        (BootstrapState::CountingRows, BootstrapEvent::RowCount(n)) => if n == 0 {
            BootstrapState::Seeding
        } else {
            BootstrapState::Done
        },
        (BootstrapState::Seeding, BootstrapEvent::Succeeded) => BootstrapState::Done,
        (BootstrapState::Seeding, BootstrapEvent::SeedAlreadyPresent) => BootstrapState::Done,
        (BootstrapState::Done, _) => BootstrapState::Done,
        _ => BootstrapState::Failed,
    }
}

/// The phase the sequence starts in.
pub fn initial_state() -> (s: BootstrapState)
    ensures
        s == BootstrapState::Connecting,
{
    BootstrapState::Connecting
}

/// The action the runner must perform next, or nothing once the sequence
/// has ended.
pub fn pending_action(s: BootstrapState) -> (r: Option<BootstrapAction>)
    ensures
        r == spec_pending(s),
{
    match s {
        BootstrapState::Connecting => Some(BootstrapAction::Connect),
        BootstrapState::ReadingVersion => Some(BootstrapAction::QueryServerVersion),
        BootstrapState::CreatingDatabase => Some(BootstrapAction::ExecCreateDatabase),
        BootstrapState::SelectingDatabase => Some(BootstrapAction::ExecSelectDatabase),
        BootstrapState::CreatingTable => Some(BootstrapAction::ExecCreateTable),
        BootstrapState::CountingRows => Some(BootstrapAction::QueryRowCount),
        BootstrapState::Seeding => Some(BootstrapAction::ExecInsertSeed),
        BootstrapState::Done => None,
        BootstrapState::Failed => None,
    }
}

/// Feeds one outcome into the machine and returns the next phase.
pub fn advance(s: BootstrapState, e: BootstrapEvent) -> (r: BootstrapState)
    ensures
        r == spec_advance(s, e),
{
    match (s, e) {
        (BootstrapState::Connecting, BootstrapEvent::Succeeded) => BootstrapState::ReadingVersion,
        (BootstrapState::ReadingVersion, BootstrapEvent::ServerVersion(_)) => BootstrapState::CreatingDatabase,
        (BootstrapState::CreatingDatabase, BootstrapEvent::Succeeded) => BootstrapState::SelectingDatabase,
        (BootstrapState::SelectingDatabase, BootstrapEvent::Succeeded) => BootstrapState::CreatingTable,
        (BootstrapState::CreatingTable, BootstrapEvent::Succeeded) => BootstrapState::CountingRows,
        (BootstrapState::CountingRows, BootstrapEvent::RowCount(n)) => if n == 0 {
            BootstrapState::Seeding
        } else {
            BootstrapState::Done
        },
        (BootstrapState::Seeding, BootstrapEvent::Succeeded) => BootstrapState::Done,
        (BootstrapState::Seeding, BootstrapEvent::SeedAlreadyPresent) => BootstrapState::Done,
        (BootstrapState::Done, _) => BootstrapState::Done,
        _ => BootstrapState::Failed,
    }
}

/// Fail-closed startup: while any step is still pending, a failure ends the
/// sequence in `Failed`, never in `Done`, and nothing further is pending —
/// the process has no path from a failed bootstrap to serving requests.
pub proof fn lemma_fail_closed(s: BootstrapState)
    requires
        spec_pending(s) is Some,
    ensures
        spec_advance(s, BootstrapEvent::Failure) == BootstrapState::Failed,
        spec_advance(s, BootstrapEvent::Failure) != BootstrapState::Done,
        spec_pending(BootstrapState::Failed) is None,
{
}

/// Seeding is gated on observed emptiness: the only way into the seeding
/// phase is from the row-count phase, on a count of exactly zero.
pub proof fn lemma_seed_gated(s: BootstrapState, e: BootstrapEvent)
    ensures
        spec_advance(s, e) == BootstrapState::Seeding ==> s == BootstrapState::CountingRows
            && (e matches BootstrapEvent::RowCount(n) && n == 0),
{
}

/// The fixed position of each phase in the sequence. The two terminal
/// phases share the last position.
pub open spec fn phase_index(s: BootstrapState) -> int {
    match s {
        BootstrapState::Connecting => 0,
        BootstrapState::ReadingVersion => 1,
        BootstrapState::CreatingDatabase => 2,
        BootstrapState::SelectingDatabase => 3,
        BootstrapState::CreatingTable => 4,
        BootstrapState::CountingRows => 5,
        BootstrapState::Seeding => 6,
        BootstrapState::Done => 7,
        BootstrapState::Failed => 7,
    }
}

/// The machine never revisits or reorders a step: every transition out of a
/// phase with a pending action moves strictly forward through the fixed
/// order (aborting counts as reaching the end). In particular the schema
/// statements come strictly before the row count, which comes strictly
/// before the seed insert — and any driver loop terminates.
pub proof fn lemma_steps_in_order(s: BootstrapState, e: BootstrapEvent)
    requires
        spec_pending(s) is Some,
    ensures
        phase_index(spec_advance(s, e)) > phase_index(s),
{
}

/// The database as far as the bootstrap sequence observes and changes it:
/// whether the target database and the notes table exist, and how many rows
/// the table holds (zero while it does not exist).
#[derive(Clone, Copy, PartialEq, Eq, Structural, Debug)]
pub struct DbState {
    pub database_exists: bool,
    pub table_exists: bool,
    pub row_count: u64,
}

/// What one bootstrap action does to the database. The conditional schema
/// statements only ensure existence; the reads change nothing; the seed
/// insert adds its one row.
pub open spec fn spec_apply(db: DbState, a: BootstrapAction) -> DbState {
    match a {
        BootstrapAction::ExecCreateDatabase => DbState { database_exists: true, ..db },
        BootstrapAction::ExecCreateTable => DbState { table_exists: true, ..db },
        BootstrapAction::ExecInsertSeed => DbState {
            row_count: (db.row_count + 1) as u64,
            ..db
        },
        _ => db,
    }
}

/// The database after one complete, successful bootstrap run: database and
/// table exist, and a table observed empty holds exactly the seed row.
pub open spec fn spec_bootstrap_result(db: DbState) -> DbState {
    DbState {
        database_exists: true,
        table_exists: true,
        row_count: if db.row_count == 0 {
            1
        } else {
            db.row_count
        },
    }
}

/// Applies one action's effect to the database model.
pub fn apply_action(db: DbState, a: BootstrapAction) -> (r: DbState)
    requires
        a == BootstrapAction::ExecInsertSeed ==> db.row_count < u64::MAX,
    ensures
        r == spec_apply(db, a),
{
    match a {
        BootstrapAction::ExecCreateDatabase => DbState { database_exists: true, ..db },
        BootstrapAction::ExecCreateTable => DbState { table_exists: true, ..db },
        BootstrapAction::ExecInsertSeed => DbState { row_count: db.row_count + 1, ..db },
        _ => db,
    }
}

/// Runs the whole bootstrap sequence against an in-memory database standing
/// in for a server on which every statement succeeds: each pending action is
/// applied to the model and its outcome fed back into the machine. The run
/// ends in `Done` and takes any starting database to `spec_bootstrap_result`
/// of it — the machine's order of steps realises exactly that effect.
pub fn run_on_model(db: DbState, server_version: String) -> (r: DbState)
    ensures
        r == spec_bootstrap_result(db),
{
    let mut state = initial_state();
    let mut model = db;
    assert(spec_pending(state) == Some(BootstrapAction::Connect));
    state = advance(state, BootstrapEvent::Succeeded);
    assert(spec_pending(state) == Some(BootstrapAction::QueryServerVersion));
    state = advance(state, BootstrapEvent::ServerVersion(server_version));
    assert(spec_pending(state) == Some(BootstrapAction::ExecCreateDatabase));
    model = apply_action(model, BootstrapAction::ExecCreateDatabase);
    state = advance(state, BootstrapEvent::Succeeded);
    assert(spec_pending(state) == Some(BootstrapAction::ExecSelectDatabase));
    state = advance(state, BootstrapEvent::Succeeded);
    assert(spec_pending(state) == Some(BootstrapAction::ExecCreateTable));
    model = apply_action(model, BootstrapAction::ExecCreateTable);
    state = advance(state, BootstrapEvent::Succeeded);
    assert(spec_pending(state) == Some(BootstrapAction::QueryRowCount));
    let n: u64 = model.row_count;
    state = advance(state, BootstrapEvent::RowCount(n));
    if n == 0 {
        assert(spec_pending(state) == Some(BootstrapAction::ExecInsertSeed));
        model = apply_action(model, BootstrapAction::ExecInsertSeed);
        state = advance(state, BootstrapEvent::Succeeded);
    }
    assert(state == BootstrapState::Done);
    model
}

/// Idempotency: bootstrapping a database that a bootstrap run has already
/// brought up changes nothing — no schema change, no second seed row.
pub proof fn lemma_bootstrap_idempotent(db: DbState)
    ensures
        spec_bootstrap_result(spec_bootstrap_result(db)) == spec_bootstrap_result(db),
{
}

/// Seed only if empty: a table that holds any rows before bootstrap keeps
/// exactly that row count — the demonstration row is not inserted.
pub proof fn lemma_seed_only_if_empty(db: DbState)
    requires
        db.row_count > 0,
    ensures
        spec_bootstrap_result(db).row_count == db.row_count,
{
}

} // verus!
