use unified_runner::entities::{entity_kind, EntityKind, EventMatch, ExpectedEventType};
use unified_runner::expect_error::{ExpectError, ObservedError};
use unified_runner::requirement::{
    can_run_on_any, RequirementError, RunOnRequirement, ServerVersion, Serverless, TestEnvironment, Topology,
};
use unified_runner::schema::{check_fields, RecordKind, SchemaViolation};

fn env(major: u64, minor: u64, patch: u64) -> TestEnvironment {
    TestEnvironment {
        server_version: ServerVersion { major, minor, patch },
        topology: Topology::ReplicaSet,
        is_serverless: false,
        auth_enabled: true,
    }
}

fn empty() -> RunOnRequirement<()> {
    RunOnRequirement {
        min_server_version: None,
        max_server_version: None,
        topologies: None,
        server_parameters: None,
        serverless: None,
        auth: None,
    }
}

#[test]
fn empty_requirement_always_runs() {
    assert!(empty().can_run_on(&env(3, 0, 0), false).unwrap());
    assert!(empty().can_run_on(&env(7, 1, 2), true).unwrap());
}

#[test]
fn minimum_server_version() {
    let r = RunOnRequirement { min_server_version: Some("3.6".to_string()), ..empty() };
    assert!(!r.can_run_on(&env(3, 4, 0), false).unwrap());
    assert!(r.can_run_on(&env(3, 6, 0), false).unwrap());
    assert!(r.can_run_on(&env(4, 0, 0), false).unwrap());
}

#[test]
fn maximum_server_version() {
    let r = RunOnRequirement { max_server_version: Some("4.0.99".to_string()), ..empty() };
    assert!(r.can_run_on(&env(4, 0, 12), false).unwrap());
    assert!(!r.can_run_on(&env(4, 2, 0), false).unwrap());
}

#[test]
fn invalid_version_bound_is_reported() {
    let r = RunOnRequirement { min_server_version: Some("abc".to_string()), ..empty() };
    match r.can_run_on(&env(4, 0, 0), false) {
        Err(RequirementError::InvalidVersionBound(text)) => assert_eq!(text, ">= abc"),
        other => panic!("Expected an invalid bound, got {:?}", other),
    }
}

#[test]
fn each_clause_can_reject() {
    let e = env(5, 0, 0);
    let topo = RunOnRequirement { topologies: Some(vec![Topology::Single, Topology::Sharded]), ..empty() };
    assert!(!topo.can_run_on(&e, true).unwrap());
    let topo = RunOnRequirement { topologies: Some(vec![Topology::ReplicaSet]), ..empty() };
    assert!(topo.can_run_on(&e, true).unwrap());
    let params = RunOnRequirement { server_parameters: Some(()), ..empty() };
    assert!(!params.can_run_on(&e, false).unwrap());
    assert!(params.can_run_on(&e, true).unwrap());
    let sl = RunOnRequirement { serverless: Some(Serverless::Require), ..empty() };
    assert!(!sl.can_run_on(&e, true).unwrap());
    let sl = RunOnRequirement { serverless: Some(Serverless::Forbid), ..empty() };
    assert!(sl.can_run_on(&e, true).unwrap());
    let auth = RunOnRequirement { auth: Some(false), ..empty() };
    assert!(!auth.can_run_on(&e, true).unwrap());
    let all = RunOnRequirement {
        min_server_version: Some("4.4".to_string()),
        max_server_version: Some("6".to_string()),
        topologies: Some(vec![Topology::ReplicaSet]),
        server_parameters: Some(()),
        serverless: Some(Serverless::Allow),
        auth: Some(true),
    };
    assert!(all.can_run_on(&e, true).unwrap());
}

fn observed(code: Option<i32>, labels: &[&str]) -> ObservedError {
    ObservedError {
        is_server_error: true,
        message: Some("E11000 duplicate key error".to_string()),
        code,
        code_name: code.map(|_| "DuplicateKey".to_string()),
        labels: labels.iter().map(|l| l.to_string()).collect(),
        rendered: "Error { kind: Write }".to_string(),
    }
}

fn expect() -> ExpectError {
    ExpectError {
        is_error: None,
        is_client_error: None,
        error_contains: None,
        error_code: None,
        error_code_name: None,
        error_labels_contain: None,
        error_labels_omit: None,
        expect_result: None,
    }
}

#[test]
fn error_code_expectation() {
    let x = ExpectError { error_code: Some(11000), ..expect() };
    let msg = x.verify_result(&observed(None, &[]), "insert").unwrap_err();
    assert_eq!(
        msg,
        "insert: Error { kind: Write } was expected to include code 11000 but had no code"
    );
    assert!(x.verify_result(&observed(Some(11000), &[]), "insert").is_ok());
    let msg = x.verify_result(&observed(Some(-5), &[]), "insert").unwrap_err();
    assert_eq!(
        msg,
        "insert: error code -5 (Some(\"DuplicateKey\")) did not match expected error code 11000 in Error { kind: Write }"
    );
}

#[test]
fn forbidden_label_expectation() {
    let x = ExpectError {
        error_labels_omit: Some(vec!["TransientTransactionError".to_string()]),
        ..expect()
    };
    let msg = x
        .verify_result(&observed(None, &["TransientTransactionError"]), "t")
        .unwrap_err();
    assert_eq!(
        msg,
        "t: expected Error { kind: Write } to omit label \"TransientTransactionError\""
    );
    assert!(x.verify_result(&observed(None, &["RetryableWriteError"]), "t").is_ok());
    let y = ExpectError { error_code: Some(11000), ..x.clone() };
    assert!(y.verify_result(&observed(Some(11000), &["TransientTransactionError"]), "t").is_err());
}

#[test]
fn first_failing_clause_is_reported() {
    let x = ExpectError {
        is_client_error: Some(true),
        error_code: Some(1),
        ..expect()
    };
    let msg = x.verify_result(&observed(None, &[]), "op").unwrap_err();
    assert_eq!(msg, "op: expected client error but got Error { kind: Write }");
}

#[test]
fn message_and_name_and_labels() {
    let e = observed(Some(11000), &["A"]);
    let x = ExpectError { error_contains: Some("duplicate key".to_string()), ..expect() };
    assert!(x.verify_result(&e, "d").is_ok());
    let x = ExpectError { error_contains: Some("timeout".to_string()), ..expect() };
    assert_eq!(
        x.verify_result(&e, "d").unwrap_err(),
        "d: \"Error { kind: Write }\" should include message field"
    );
    let x = ExpectError { error_code_name: Some("Other".to_string()), ..expect() };
    assert_eq!(
        x.verify_result(&e, "d").unwrap_err(),
        "d: error code name \"DuplicateKey\" did not match expected error code name \"Other\" in Error { kind: Write }"
    );
    let x = ExpectError { error_code_name: Some("Other".to_string()), ..expect() };
    assert_eq!(
        x.verify_result(&observed(None, &[]), "d").unwrap_err(),
        "d: Error { kind: Write } was expected to include code name \"Other\" but had no code name"
    );
    let x = ExpectError {
        error_labels_contain: Some(vec!["A".to_string(), "B".to_string()]),
        ..expect()
    };
    assert_eq!(
        x.verify_result(&e, "d").unwrap_err(),
        "d: expected Error { kind: Write } to contain label \"B\""
    );
    let x = ExpectError { expect_result: Some("{}".to_string()), is_error: Some(true), ..expect() };
    assert!(x.verify_result(&e, "d").is_ok());
}

fn names(v: &[&str]) -> Vec<String> {
    v.iter().map(|s| s.to_string()).collect()
}

#[test]
fn unknown_top_level_field_is_refused() {
    let with_extra = names(&["description", "schemaVersion", "tests", "bogus"]);
    assert!(matches!(
        check_fields(RecordKind::TestFile, &with_extra),
        Err(SchemaViolation::UnknownField(f)) if f == "bogus"
    ));
    let without = names(&["description", "schemaVersion", "tests"]);
    assert!(check_fields(RecordKind::TestFile, &without).is_ok());
    let anchors = names(&["description", "schemaVersion", "tests", "_yamlAnchors"]);
    assert!(check_fields(RecordKind::TestFile, &anchors).is_ok());
    let missing = names(&["description", "tests"]);
    assert!(matches!(
        check_fields(RecordKind::TestFile, &missing),
        Err(SchemaViolation::MissingField(f)) if f == "schemaVersion"
    ));
}

#[test]
fn entity_declarations_pick_one_kind() {
    assert_eq!(entity_kind(&names(&["client"])).unwrap(), EntityKind::Client);
    assert_eq!(entity_kind(&names(&["thread"])).unwrap(), EntityKind::Thread);
    assert!(matches!(entity_kind(&names(&[])), Err(SchemaViolation::NotSingleKey)));
    assert!(matches!(
        entity_kind(&names(&["client", "session"])),
        Err(SchemaViolation::NotSingleKey)
    ));
    assert!(matches!(
        entity_kind(&names(&["cursor"])),
        Err(SchemaViolation::UnknownEntityKind(k)) if k == "cursor"
    ));
    assert_eq!(EntityKind::Bucket.record_kind(), RecordKind::Bucket);
}

#[test]
fn event_descriptor_names() {
    assert_eq!(ExpectedEventType::from_name("command"), Some(ExpectedEventType::Command));
    assert_eq!(ExpectedEventType::from_name("cmap"), Some(ExpectedEventType::Cmap));
    assert_eq!(ExpectedEventType::from_name("cmapWithoutConnectionReady"), None);
    assert_eq!(EventMatch::from_name("prefix"), Some(EventMatch::Prefix));
    assert_eq!(EventMatch::from_name("exact"), Some(EventMatch::Exact));
    assert_eq!(EventMatch::from_name("Exact"), None);
}

#[test]
fn any_requirement_suffices() {
    let e = env(3, 4, 0);
    let old = RunOnRequirement { max_server_version: Some("3.2".to_string()), ..empty() };
    let new = RunOnRequirement { min_server_version: Some("3.6".to_string()), ..empty() };
    let fits = RunOnRequirement { topologies: Some(vec![Topology::ReplicaSet]), ..empty() };
    assert!(!can_run_on_any(&vec![old.clone(), new.clone()], &e, &vec![true, true]).unwrap());
    assert!(can_run_on_any(&vec![old, new, fits], &e, &vec![true, true, true]).unwrap());
    assert!(!can_run_on_any(&Vec::<RunOnRequirement<()>>::new(), &e, &vec![]).unwrap());
    let bad = RunOnRequirement { min_server_version: Some("?".to_string()), ..empty() };
    assert!(can_run_on_any(&vec![bad, empty()], &e, &vec![true, true]).is_err());
}

#[test]
fn version_bounds_alone() {
    let r = RunOnRequirement {
        min_server_version: Some("4.0".to_string()),
        max_server_version: Some("4.4".to_string()),
        topologies: Some(vec![Topology::Single]),
        ..empty()
    };
    let v = |major, minor, patch| ServerVersion { major, minor, patch };
    assert!(r.version_bounds_hold(&v(4, 2, 0)).unwrap());
    assert!(!r.version_bounds_hold(&v(3, 6, 0)).unwrap());
    assert!(r.version_bounds_hold(&v(4, 4, 1)).unwrap());
    assert!(!r.version_bounds_hold(&v(4, 5, 0)).unwrap());
    let bad = RunOnRequirement { max_server_version: Some("4.x.y".to_string()), ..empty() };
    match bad.version_bounds_hold(&v(4, 0, 0)) {
        Err(RequirementError::InvalidVersionBound(text)) => assert_eq!(text, "<= 4.x.y"),
        other => panic!("Expected an invalid bound, got {:?}", other),
    }
    let low = RunOnRequirement { min_server_version: Some("5".to_string()), ..bad };
    assert!(!low.can_run_on(&env(4, 0, 0), true).unwrap());
}

#[test]
fn every_diagnostic_names_the_error() {
    let e = observed(Some(2), &["A"]);
    let xs = vec![
        ExpectError { is_client_error: Some(true), ..expect() },
        ExpectError { error_contains: Some("zzz".to_string()), ..expect() },
        ExpectError { error_code: Some(3), ..expect() },
        ExpectError { error_code_name: Some("Nope".to_string()), ..expect() },
        ExpectError { error_labels_contain: Some(vec!["B".to_string()]), ..expect() },
        ExpectError { error_labels_omit: Some(vec!["A".to_string()]), ..expect() },
    ];
    for x in xs {
        let msg = x.verify_result(&e, "ctx").unwrap_err();
        assert!(msg.starts_with("ctx: "), "{}", msg);
        assert!(msg.contains("Error { kind: Write }"), "{}", msg);
    }
}
