//! Version resolution against registry snapshots.

use cargo_dl::package_id_spec::PackageIdSpec;
use cargo_dl::resolve::{resolve, Resolution, VersionRecord};

fn record(version: &str, yanked: bool) -> VersionRecord {
    VersionRecord { version: version.to_owned(), checksum: vec![0u8; 32], yanked }
}

#[test]
fn caret_constraint_selects_highest_compatible() {
    let records = vec![
        record("1.1.0", false),
        record("1.2.0", false),
        record("1.3.0-beta", false),
        record("2.0.0", false),
    ];
    let spec = PackageIdSpec::from_str("foo@^1.2").unwrap();
    match resolve(&records, &spec.version_req, false) {
        Resolution::Selected(i) => assert_eq!(records[i].version.as_str(), "1.2.0"),
        _ => panic!("expected a selection"),
    }
}

#[test]
fn unconstrained_selects_highest() {
    let records = vec![
        record("0.3.1", false),
        record("1.0.0", false),
        record("0.9.9", false),
    ];
    match resolve(&records, &None, false) {
        Resolution::Selected(i) => assert_eq!(records[i].version.as_str(), "1.0.0"),
        _ => panic!("expected a selection"),
    }
}

#[test]
fn yanked_only_version_yields_no_match_with_hint() {
    let records = vec![record("1.0.0", true)];
    match resolve(&records, &None, false) {
        Resolution::NoMatch { yanked_hint } => {
            let i = yanked_hint.expect("expected a yanked hint");
            assert_eq!(records[i].version.as_str(), "1.0.0");
        }
        _ => panic!("expected no match"),
    }
}

#[test]
fn allow_yanked_selects_yanked_version() {
    let records = vec![record("1.0.0", true), record("0.9.0", false)];
    match resolve(&records, &None, true) {
        Resolution::Selected(i) => assert_eq!(records[i].version.as_str(), "1.0.0"),
        _ => panic!("expected a selection"),
    }
}

#[test]
fn yanked_versions_are_skipped_without_the_flag() {
    let records = vec![record("2.0.0", true), record("1.5.0", false)];
    match resolve(&records, &None, false) {
        Resolution::Selected(i) => {
            assert!(!records[i].yanked);
            assert_eq!(records[i].version.as_str(), "1.5.0");
        }
        _ => panic!("expected a selection"),
    }
}

#[test]
fn non_semver_versions_are_skipped() {
    let records = vec![record("not-a-version", false), record("0.1.0", false)];
    match resolve(&records, &None, false) {
        Resolution::Selected(i) => assert_eq!(records[i].version.as_str(), "0.1.0"),
        _ => panic!("expected a selection"),
    }
}

#[test]
fn empty_snapshot_yields_no_match_without_hint() {
    let records: Vec<VersionRecord> = Vec::new();
    match resolve(&records, &None, false) {
        Resolution::NoMatch { yanked_hint } => assert!(yanked_hint.is_none()),
        _ => panic!("expected no match"),
    }
}

#[test]
fn constraint_excluding_everything_yields_no_match() {
    let records = vec![record("1.0.0", false), record("1.1.0", false)];
    let spec = PackageIdSpec::from_str("foo@^2").unwrap();
    match resolve(&records, &spec.version_req, false) {
        Resolution::NoMatch { yanked_hint } => assert!(yanked_hint.is_none()),
        _ => panic!("expected no match"),
    }
}

#[test]
fn hint_is_the_highest_matching_yanked_version() {
    let records = vec![
        record("1.0.0", true),
        record("1.2.0", true),
        record("1.1.0", true),
        record("2.0.0", true),
    ];
    let spec = PackageIdSpec::from_str("foo@^1").unwrap();
    match resolve(&records, &spec.version_req, false) {
        Resolution::NoMatch { yanked_hint } => {
            let i = yanked_hint.expect("expected a yanked hint");
            assert_eq!(records[i].version.as_str(), "1.2.0");
        }
        _ => panic!("expected no match"),
    }
}

#[test]
fn comma_separated_range_constraint_is_honoured() {
    let records = vec![
        record("0.9.0", false),
        record("1.4.2", false),
        record("2.0.0", false),
    ];
    let spec = PackageIdSpec::from_str("foo@>=1.0, <2.0").unwrap();
    match resolve(&records, &spec.version_req, false) {
        Resolution::Selected(i) => assert_eq!(records[i].version.as_str(), "1.4.2"),
        _ => panic!("expected a selection"),
    }
}

#[test]
fn duplicate_versions_resolve_to_that_version() {
    let records = vec![record("1.0.0", false), record("1.0.0", false)];
    match resolve(&records, &None, false) {
        Resolution::Selected(i) => assert_eq!(records[i].version.as_str(), "1.0.0"),
        _ => panic!("expected a selection"),
    }
}

#[test]
fn prerelease_is_not_matched_by_plain_caret() {
    let records = vec![record("1.3.0-beta", false)];
    let spec = PackageIdSpec::from_str("foo@^1.2").unwrap();
    match resolve(&records, &spec.version_req, false) {
        Resolution::NoMatch { yanked_hint } => assert!(yanked_hint.is_none()),
        _ => panic!("expected no match"),
    }
}
