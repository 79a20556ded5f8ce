use ensure_installed::decide::extract_version_text;
use ensure_installed::version::{parse_requirement, parse_version, requirement_matches};

#[test]
fn round_trip_same_entry_key_same_version() {
    let key = "rustfmt 0.9.0 (registry+https://github.com/rust-lang/crates.io-index)";
    let first = extract_version_text(key).expect("key has a version field");
    let second = extract_version_text(key).expect("key has a version field");
    assert_eq!(first, second);
    let v1 = semver::Version::parse(&first).expect("version text parses");
    let v2 = semver::Version::parse(&second).expect("version text parses");
    assert_eq!(v1, v2);
    assert_eq!(first, "0.9.0");
}

#[test]
fn version_field_is_the_second_field() {
    assert_eq!(extract_version_text("rustfmt 0.9.0 (registry)").unwrap(), "0.9.0");
    assert_eq!(extract_version_text("a b c").unwrap(), "b");
    assert_eq!(extract_version_text("rustfmt 1.2.3-beta.1+build (x)").unwrap(), "1.2.3-beta.1+build");
}

#[test]
fn doubled_space_gives_an_empty_field() {
    assert_eq!(extract_version_text("rustfmt  0.9.0").unwrap(), "");
    assert_eq!(extract_version_text("rustfmt ").unwrap(), "");
}

#[test]
fn key_without_space_has_no_version_field() {
    assert!(extract_version_text("rustfmt").is_none());
    assert!(extract_version_text("").is_none());
}

#[test]
fn requirement_parsing() {
    assert!(parse_requirement("0.9.0").is_some());
    assert!(parse_requirement("^0.0.9").is_some());
    assert!(parse_requirement(">=1.2, <2").is_some());
    assert!(parse_requirement("not a requirement!").is_none());
}

#[test]
fn version_parsing() {
    assert!(parse_version("0.9.0").is_some());
    assert!(parse_version("1.2.3-beta.1+build.5").is_some());
    assert!(parse_version("notaversion").is_none());
    assert!(parse_version("").is_none());
    assert!(parse_version("1.2").is_none());
}

#[test]
fn caret_compatibility_boundaries() {
    let req = parse_requirement("0.9.0").unwrap();
    let have_exact = parse_version("0.9.0").unwrap();
    let have_patch = parse_version("0.9.1").unwrap();
    let have_minor = parse_version("0.10.0").unwrap();
    let have_older = parse_version("0.8.0").unwrap();
    assert!(requirement_matches(&req, &have_exact));
    assert!(requirement_matches(&req, &have_patch));
    assert!(!requirement_matches(&req, &have_minor));
    assert!(!requirement_matches(&req, &have_older));

    let zero_req = parse_requirement("^0.0.9").unwrap();
    assert!(requirement_matches(&zero_req, &parse_version("0.0.9").unwrap()));
    assert!(!requirement_matches(&zero_req, &parse_version("0.0.10").unwrap()));
}
