use ensure_installed::decide::{should_install, DecisionError};
use ensure_installed::version::parse_requirement;

fn some_path() -> &'static str {
    "/path/to/.crates.toml"
}

fn run(contents: &str, package: &str, requirement: &str) -> Result<bool, DecisionError> {
    let req = parse_requirement(requirement).expect("requirement must parse");
    should_install(some_path(), contents, package, &req)
}

fn test(want: bool, crates_toml_contents: &str) {
    match run(crates_toml_contents, "rustfmt", "0.9.0") {
        Ok(got) => assert_eq!(got, want),
        Err(_) => panic!("unexpected decision error"),
    }
}

#[test]
fn no_contents() {
    test(true, "");
}

#[test]
fn no_packages() {
    test(true, "[v1]");
}

#[test]
fn absent_package() {
    test(true, r###"[v1]
"protobuf 1.4.2 (registry+https://github.com/rust-lang/crates.io-index)" = ["foo", "bar"]"###);
}

#[test]
fn exact_match() {
    test(false, r###"[v1]
"rustfmt 0.9.0 (registry+https://github.com/rust-lang/crates.io-index)" = ["rustfmt"]"###);
}

#[test]
fn have_newer_but_compatible() {
    test(false, r###"[v1]
"rustfmt 0.9.1 (registry+https://github.com/rust-lang/crates.io-index)" = ["rustfmt"]"###);
}

#[test]
fn have_newer_but_incompatible() {
    test(true, r###"[v1]
"rustfmt 0.10.0 (registry+https://github.com/rust-lang/crates.io-index)" = ["rustfmt"]"###);
}

#[test]
fn have_older() {
    test(true, r###"[v1]
"rustfmt 0.8.0 (registry+https://github.com/rust-lang/crates.io-index)" = ["rustfmt"]"###);
}

#[test]
fn carat_satisfied() {
    let crates_toml_contents = r###"[v1]
"rustfmt 0.0.9 (registry+https://github.com/rust-lang/crates.io-index)" = ["rustfmt"]"###;

    assert_eq!(run(crates_toml_contents, "rustfmt", "^0.0.9"), Ok(false));
}

#[test]
fn carat_unsatisfied() {
    let crates_toml_contents = r###"[v1]
"rustfmt 0.0.10 (registry+https://github.com/rust-lang/crates.io-index)" = ["rustfmt"]"###;

    assert_eq!(run(crates_toml_contents, "rustfmt", "^0.0.9"), Ok(true));
}

#[test]
fn name_prefix_does_not_match() {
    // An entry for "rustfmt2" must not satisfy a request for "rustfmt".
    test(true, r###"[v1]
"rustfmt2 0.9.0 (registry+https://github.com/rust-lang/crates.io-index)" = ["rustfmt2"]"###);
}

#[test]
fn request_prefix_of_name_does_not_match() {
    let contents = r###"[v1]
"rustfmt 0.9.0 (registry+https://github.com/rust-lang/crates.io-index)" = ["rustfmt"]"###;
    assert_eq!(run(contents, "rust", "0.9.0"), Ok(true));
}

#[test]
fn malformed_manifest_is_an_error() {
    match run("this is = = not valid", "rustfmt", "0.9.0") {
        Err(DecisionError::Malformed(path, _)) => assert_eq!(path, some_path()),
        other => panic!("expected a malformed-manifest error, got {:?}", other),
    }
}

#[test]
fn duplicate_key_is_malformed() {
    let contents = r###"[v1]
"rustfmt 0.9.0 (a)" = []
"rustfmt 0.9.0 (a)" = []"###;
    assert!(matches!(
        run(contents, "rustfmt", "0.9.0"),
        Err(DecisionError::Malformed(_, _))
    ));
}

#[test]
fn missing_section_is_an_error() {
    match run("[v2]\nx = 1", "rustfmt", "0.9.0") {
        Err(DecisionError::MissingSection(path)) => assert_eq!(path, some_path()),
        other => panic!("expected a missing-section error, got {:?}", other),
    }
}

#[test]
fn wrong_section_type_is_an_error() {
    match run("v1 = 3", "rustfmt", "0.9.0") {
        Err(DecisionError::WrongSectionType(path)) => assert_eq!(path, some_path()),
        other => panic!("expected a wrong-section-type error, got {:?}", other),
    }
}

#[test]
fn unparsable_version_is_an_error() {
    let contents = r###"[v1]
"rustfmt notaversion (registry)" = ["rustfmt"]"###;
    match run(contents, "rustfmt", "0.9.0") {
        Err(DecisionError::InvalidVersion(path, raw)) => {
            assert_eq!(path, some_path());
            assert_eq!(raw, "notaversion");
        }
        other => panic!("expected an invalid-version error, got {:?}", other),
    }
}

#[test]
fn empty_version_field_is_an_error() {
    // A key of the bare name and a trailing space matches, and its version
    // field is the empty string, which is not a semantic version.
    let contents = "[v1]\n\"rustfmt \" = []";
    assert!(matches!(
        run(contents, "rustfmt", "0.9.0"),
        Err(DecisionError::InvalidVersion(_, _))
    ));
}

#[test]
fn first_of_several_packages_decides() {
    let contents = r###"[v1]
"protobuf 1.4.2 (registry)" = []
"rustfmt 0.9.0 (registry)" = []
"serde 1.0.0 (registry)" = []"###;
    assert_eq!(run(contents, "rustfmt", "0.9.0"), Ok(false));
    assert_eq!(run(contents, "serde", "2.0.0"), Ok(true));
}
