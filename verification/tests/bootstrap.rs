use zetteln::bootstrap::{
    advance, apply_action, initial_state, pending_action, run_on_model, BootstrapAction,
    BootstrapEvent, BootstrapState, DbState,
};

fn fresh() -> DbState {
    DbState { database_exists: false, table_exists: false, row_count: 0 }
}

#[test]
fn fresh_database_gets_schema_and_seed() {
    let after = run_on_model(fresh(), "9.1.0".to_string());
    assert_eq!(
        after,
        DbState { database_exists: true, table_exists: true, row_count: 1 }
    );
}

#[test]
fn rerun_changes_nothing() {
    let once = run_on_model(fresh(), "9.1.0".to_string());
    let twice = run_on_model(once, "9.1.0".to_string());
    assert_eq!(once, twice);
    assert_eq!(twice.row_count, 1);
}

#[test]
fn no_seed_when_table_nonempty() {
    let preseeded = DbState { database_exists: true, table_exists: true, row_count: 3 };
    let after = run_on_model(preseeded, "9.1.0".to_string());
    assert_eq!(after.row_count, 3);
}

#[test]
fn failure_at_every_step_is_fatal() {
    let mut state = initial_state();
    let mut steps: usize = 0;
    while let Some(_) = pending_action(state) {
        assert_eq!(advance(state, BootstrapEvent::Failure), BootstrapState::Failed);
        state = match state {
            BootstrapState::CountingRows => advance(state, BootstrapEvent::RowCount(0)),
            BootstrapState::ReadingVersion => {
                advance(state, BootstrapEvent::ServerVersion("9.1.0".to_string()))
            }
            _ => advance(state, BootstrapEvent::Succeeded),
        };
        steps += 1;
    }
    assert_eq!(state, BootstrapState::Done);
    assert_eq!(steps, 7);
}

#[test]
fn failed_bootstrap_pends_nothing() {
    let failed = advance(initial_state(), BootstrapEvent::Failure);
    assert_eq!(failed, BootstrapState::Failed);
    assert!(pending_action(failed).is_none());
}

#[test]
fn losing_seed_race_still_completes() {
    let mut state = initial_state();
    state = advance(state, BootstrapEvent::Succeeded);
    state = advance(state, BootstrapEvent::ServerVersion("9.1.0".to_string()));
    state = advance(state, BootstrapEvent::Succeeded);
    state = advance(state, BootstrapEvent::Succeeded);
    state = advance(state, BootstrapEvent::Succeeded);
    state = advance(state, BootstrapEvent::RowCount(0));
    assert_eq!(state, BootstrapState::Seeding);
    state = advance(state, BootstrapEvent::SeedAlreadyPresent);
    assert_eq!(state, BootstrapState::Done);
}

#[test]
fn nonzero_count_skips_seeding() {
    let mut state = initial_state();
    state = advance(state, BootstrapEvent::Succeeded);
    state = advance(state, BootstrapEvent::ServerVersion("9.1.0".to_string()));
    state = advance(state, BootstrapEvent::Succeeded);
    state = advance(state, BootstrapEvent::Succeeded);
    state = advance(state, BootstrapEvent::Succeeded);
    state = advance(state, BootstrapEvent::RowCount(1));
    assert_eq!(state, BootstrapState::Done);
}

#[test]
fn mismatched_outcome_is_fatal() {
    assert_eq!(
        advance(BootstrapState::Connecting, BootstrapEvent::RowCount(0)),
        BootstrapState::Failed
    );
    assert_eq!(
        advance(BootstrapState::CountingRows, BootstrapEvent::Succeeded),
        BootstrapState::Failed
    );
    assert_eq!(
        advance(BootstrapState::CreatingTable, BootstrapEvent::SeedAlreadyPresent),
        BootstrapState::Failed
    );
}

#[test]
fn actions_come_in_the_documented_order() {
    let mut state = initial_state();
    let expected = [
        BootstrapAction::Connect,
        BootstrapAction::QueryServerVersion,
        BootstrapAction::ExecCreateDatabase,
        BootstrapAction::ExecSelectDatabase,
        BootstrapAction::ExecCreateTable,
        BootstrapAction::QueryRowCount,
        BootstrapAction::ExecInsertSeed,
    ];
    for (i, want) in expected.iter().enumerate() {
        let got = pending_action(state).expect("a step should be pending");
        assert_eq!(got, *want);
        state = match got {
            BootstrapAction::QueryServerVersion => {
                advance(state, BootstrapEvent::ServerVersion("9.1.0".to_string()))
            }
            BootstrapAction::QueryRowCount => advance(state, BootstrapEvent::RowCount(0)),
            _ => advance(state, BootstrapEvent::Succeeded),
        };
        assert!(i < expected.len());
    }
    assert_eq!(state, BootstrapState::Done);
}

#[test]
fn schema_statements_only_ensure_existence() {
    let db = DbState { database_exists: true, table_exists: true, row_count: 2 };
    assert_eq!(apply_action(db, BootstrapAction::ExecCreateDatabase), db);
    assert_eq!(apply_action(db, BootstrapAction::ExecCreateTable), db);
    assert_eq!(apply_action(db, BootstrapAction::QueryRowCount), db);
    let seeded = apply_action(db, BootstrapAction::ExecInsertSeed);
    assert_eq!(seeded.row_count, 3);
}
