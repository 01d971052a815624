use tfhe_backward_compat_data::compat::VersionCheckError;
use tfhe_backward_compat_data::manifest::{TestMetadata, Testcase};
use tfhe_backward_compat_data::metadata::ShortintCiphertextTest;

fn entry(min: &str) -> Testcase {
    Testcase {
        tfhe_version_min: min.to_string(),
        tfhe_module: "shortint".to_string(),
        metadata: TestMetadata::ShortintCiphertext(ShortintCiphertextTest {
            test_filename: "ct1".to_string(),
            key_filename: "client_key.cbor".to_string(),
            clear_value: 0,
        }),
    }
}

#[test]
fn requirement_text() {
    assert_eq!(entry("0.6").requirement(), ">=0.6");
}

#[test]
fn newer_and_equal_versions_are_valid() {
    let t = entry("0.6");
    assert_eq!(t.check_version("0.6.0"), Ok(true));
    assert_eq!(t.check_version("0.6.4"), Ok(true));
    assert_eq!(t.check_version("0.7.0"), Ok(true));
    assert_eq!(t.check_version("1.0.0"), Ok(true));
}

#[test]
fn older_versions_are_not_valid() {
    let t = entry("0.7");
    assert_eq!(t.check_version("0.6.9"), Ok(false));
    assert_eq!(t.check_version("0.0.1"), Ok(false));
}

#[test]
fn prerelease_versions_do_not_meet_a_plain_minimum() {
    assert_eq!(entry("0.6").check_version("0.7.0-alpha.1"), Ok(false));
}

#[test]
fn malformed_version_is_reported() {
    let t = entry("0.6");
    assert_eq!(t.check_version("0.7"), Err(VersionCheckError::InvalidVersion));
    assert_eq!(t.check_version("latest"), Err(VersionCheckError::InvalidVersion));
    assert_eq!(t.check_version(""), Err(VersionCheckError::InvalidVersion));
}

#[test]
fn malformed_minimum_is_reported() {
    assert_eq!(
        entry("abc").check_version("0.7.0"),
        Err(VersionCheckError::InvalidRequirement)
    );
    assert_eq!(
        entry("abc").check_version("x"),
        Err(VersionCheckError::InvalidVersion)
    );
}

#[test]
fn is_valid_for_version_on_readable_texts() {
    assert!(entry("0.6").is_valid_for_version("0.6.0"));
    assert!(entry("0.6").is_valid_for_version("0.7.2"));
    assert!(!entry("0.7").is_valid_for_version("0.6.9"));
    assert!(!entry("0.6").is_valid_for_version("0.7.0-alpha.1"));
}
