use release_smoke::errors::PipelineError;
use release_smoke::strutil::{contains_substr, str_eq, strip_version_prefix};
use release_smoke::version_check::check_version_output;

#[test]
fn strip_removes_leading_prefix() {
    assert_eq!(strip_version_prefix("v1.2.3"), "1.2.3");
    assert_eq!(strip_version_prefix("1.2.3"), "1.2.3");
}

#[test]
fn strip_removes_every_leading_prefix_character() {
    assert_eq!(strip_version_prefix("vv2.0.0"), "2.0.0");
    assert_eq!(strip_version_prefix("v"), "");
    assert_eq!(strip_version_prefix(""), "");
}

#[test]
fn strip_leaves_inner_characters_alone() {
    assert_eq!(strip_version_prefix("1.2.3-dev"), "1.2.3-dev");
    assert_eq!(strip_version_prefix("v1.2v3"), "1.2v3");
}

#[test]
fn substring_search() {
    assert!(contains_substr("noir-libs 1.2.3 (abcdef)", "1.2.3"));
    assert!(!contains_substr("noir-libs 1.3.0", "1.2.3"));
    assert!(contains_substr("abc", "abc"));
    assert!(contains_substr("abc", ""));
    assert!(contains_substr("", ""));
    assert!(!contains_substr("ab", "abc"));
    assert!(!contains_substr("", "a"));
}

#[test]
fn character_equality() {
    assert!(str_eq("noir-libs", "noir-libs"));
    assert!(!str_eq("noir-libs", "noir-lib"));
    assert!(!str_eq("noir-libs", "noir-libz"));
    assert!(str_eq("", ""));
}

#[test]
fn matching_version_is_accepted() {
    assert!(check_version_output("1.2.3", "noir-libs 1.2.3 (abcdef)").is_ok());
}

#[test]
fn mismatched_version_is_rejected_with_both_strings() {
    let r = check_version_output("1.2.3", "noir-libs 1.3.0");
    match r {
        Err(PipelineError::VersionMismatch { expected, actual }) => {
            assert_eq!(expected.as_str(), "1.2.3");
            assert_eq!(actual.as_str(), "noir-libs 1.3.0");
        }
        other => panic!("expected VersionMismatch, got {:?}", other),
    }
}

#[test]
fn prefixed_and_bare_expected_versions_are_treated_alike() {
    let report = "noir-libs 1.2.3 (abcdef)";
    assert_eq!(
        check_version_output("v1.2.3", report).is_ok(),
        check_version_output("1.2.3", report).is_ok()
    );
    assert!(check_version_output("v1.2.3", report).is_ok());

    let wrong = "noir-libs 1.3.0";
    assert_eq!(
        check_version_output("v1.2.3", wrong).is_err(),
        check_version_output("1.2.3", wrong).is_err()
    );
}
