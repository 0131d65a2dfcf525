//! Parsing package names and package specifications.

use cargo_dl::crate_name::{CrateName, ParseError};
use cargo_dl::package_id_spec::{ParseError as SpecParseError, PackageIdSpec};

#[test]
fn valid_name_round_trips() {
    let name = CrateName::from_str("serde_json-2").unwrap();
    assert_eq!(name.as_str(), "serde_json-2");
}

#[test]
fn empty_name_parses() {
    let name = CrateName::from_str("").unwrap();
    assert_eq!(name.as_str(), "");
}

#[test]
fn invalid_name_reports_character_and_index() {
    match CrateName::from_str("ab!cd") {
        Err(ParseError::InvalidCharacter(c, i)) => {
            assert_eq!(c, '!');
            assert_eq!(i, 2);
        }
        _ => panic!("expected an invalid-character error"),
    }
}

#[test]
fn invalid_name_reports_first_offender() {
    match CrateName::from_str("a.b.c") {
        Err(ParseError::InvalidCharacter(c, i)) => {
            assert_eq!(c, '.');
            assert_eq!(i, 1);
        }
        _ => panic!("expected an invalid-character error"),
    }
}

#[test]
fn spec_without_constraint() {
    let spec = PackageIdSpec::from_str("foo").unwrap();
    assert_eq!(spec.name.as_str(), "foo");
    assert!(spec.version_req.is_none());
    assert_eq!(spec.to_text().as_str(), "foo");
}

#[test]
fn spec_with_constraint_round_trips() {
    let spec = PackageIdSpec::from_str("foo@^1.2").unwrap();
    assert_eq!(spec.name.as_str(), "foo");
    assert_eq!(spec.version_req.as_ref().unwrap().as_str(), "^1.2");
    assert_eq!(spec.to_text().as_str(), "foo@^1.2");
}

#[test]
fn spec_with_exact_version_round_trips() {
    let spec = PackageIdSpec::from_str("bar@=0.3.7").unwrap();
    assert_eq!(spec.to_text().as_str(), "bar@=0.3.7");
}

#[test]
fn spec_splits_on_first_at() {
    match PackageIdSpec::from_str("foo@1.0@2.0") {
        Err(SpecParseError::VersionReq(text)) => {
            assert_eq!(text.as_str(), "1.0@2.0");
        }
        _ => panic!("expected a version-request error"),
    }
}

#[test]
fn spec_with_bad_name_reports_name_substring() {
    match PackageIdSpec::from_str("f+oo@^1.2") {
        Err(SpecParseError::CrateName(ParseError::InvalidCharacter(c, i), text)) => {
            assert_eq!(c, '+');
            assert_eq!(i, 1);
            assert_eq!(text.as_str(), "f+oo");
        }
        _ => panic!("expected a crate-name error"),
    }
}

#[test]
fn spec_with_bad_constraint_reports_constraint_substring() {
    match PackageIdSpec::from_str("foo@notaconstraint") {
        Err(SpecParseError::VersionReq(text)) => {
            assert_eq!(text.as_str(), "notaconstraint");
        }
        _ => panic!("expected a version-request error"),
    }
}
