use zetteln::version::{version_info, QueryError};

#[test]
fn healthy_round_trip_yields_both_fields() {
    let r = version_info("0.1.0", Ok(Some("9.1.0-dolt".to_string())));
    let info = r.expect("a returned row should yield an answer");
    assert_eq!(info.version, "0.1.0");
    assert_eq!(info.database, "9.1.0-dolt");
    assert!(!info.version.is_empty());
    assert!(!info.database.is_empty());
}

#[test]
fn missing_row_is_its_own_error() {
    let r = version_info("0.1.0", Ok(None));
    match r {
        Err(e) => {
            assert!(matches!(e, QueryError::NoRow));
            assert_eq!(e.message(), "No version returned");
        }
        Ok(_) => panic!("no row must not yield an answer"),
    }
}

#[test]
fn failed_round_trip_carries_its_message() {
    let r = version_info("0.1.0", Err("pool exhausted".to_string()));
    match r {
        Err(QueryError::Unavailable(m)) => assert_eq!(m, "pool exhausted"),
        _ => panic!("a failed round-trip must surface as unavailable"),
    }
}

#[test]
fn transient_failure_does_not_stick() {
    let first = version_info("0.1.0", Err("connection reset".to_string()));
    assert!(first.is_err());
    let second = version_info("0.1.0", Ok(Some("9.1.0".to_string())));
    let info = second.expect("a later healthy call must succeed");
    assert_eq!(info.database, "9.1.0");
}
