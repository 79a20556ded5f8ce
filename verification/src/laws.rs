//! The decision's laws: what `should_install` guarantees for whole classes
//! of manifests, proved once over the spec-level pipeline that its contract
//! ties it to.

use vstd::prelude::*;

use crate::decide::{
    entry_matches, entry_well_formed, find_entry, section_name, spec_should_install,
    version_field, ErrorKind,
};
use crate::manifest::{section_is_table, section_keys, section_present, toml_doc_ok};
use crate::text::{lemma_space_offset_first, lemma_space_offset_le, lemma_split_second};
use crate::version::{req_matches, semver_ok};

verus! {

/// The structural checks a non-empty manifest must pass before any entry is
/// consulted: it parses, and its required section is a table.
pub open spec fn manifest_well_formed(text: Seq<char>) -> bool {
    &&& toml_doc_ok(text)
    &&& section_present(text, section_name())
    &&& section_is_table(text, section_name())
}

/// When the manifest records the package with a well-formed version that
/// satisfies the requirement, nothing is installed: the decision is `false`.
pub proof fn lemma_satisfied_version_skips_install(
    text: Seq<char>,
    package: Seq<char>,
    req: Seq<char>,
)
    ensures
        ({
            &&& text.len() > 0
            &&& manifest_well_formed(text)
            &&& find_entry(section_keys(text, section_name()), package) matches Some(key)
            &&& entry_well_formed(key)
            &&& semver_ok(version_field(key))
            &&& req_matches(req, version_field(key))
        }) ==> spec_should_install(text, package, req) == Ok::<bool, ErrorKind>(false),
{
}

/// When the recorded version does not satisfy the requirement, the decision
/// is to install.
pub proof fn lemma_unsatisfied_version_installs(
    text: Seq<char>,
    package: Seq<char>,
    req: Seq<char>,
)
    ensures
        ({
            &&& text.len() > 0
            &&& manifest_well_formed(text)
            &&& find_entry(section_keys(text, section_name()), package) matches Some(key)
            &&& entry_well_formed(key)
            &&& semver_ok(version_field(key))
            &&& !req_matches(req, version_field(key))
        }) ==> spec_should_install(text, package, req) == Ok::<bool, ErrorKind>(true),
{
}

/// An empty manifest always decides to install, whatever the package and
/// the requirement: nothing is installed yet.
pub proof fn lemma_empty_manifest_installs(text: Seq<char>, package: Seq<char>, req: Seq<char>)
    ensures
        text.len() == 0 ==> spec_should_install(text, package, req) == Ok::<bool, ErrorKind>(true),
{
}

/// A manifest whose required section holds no entries decides to install,
/// for every package and requirement.
pub proof fn lemma_no_entries_installs(text: Seq<char>, package: Seq<char>, req: Seq<char>)
    ensures
        ({
            &&& text.len() > 0
            &&& manifest_well_formed(text)
            &&& section_keys(text, section_name()).len() == 0
        }) ==> spec_should_install(text, package, req) == Ok::<bool, ErrorKind>(true),
{
}

/// A manifest whose entries all name other packages decides to install: a
/// key matches only when it begins with the package name followed by one
/// space, so no entry for a longer name (of which the package is a mere
/// prefix) is mistaken for the package itself.
pub proof fn lemma_other_packages_install(text: Seq<char>, package: Seq<char>, req: Seq<char>)
    ensures
        ({
            &&& text.len() > 0
            &&& manifest_well_formed(text)
            &&& forall|k: int|
                0 <= k < section_keys(text, section_name()).len() ==> !entry_matches(
                    section_keys(text, section_name())[k],
                    package,
                )
        }) ==> spec_should_install(text, package, req) == Ok::<bool, ErrorKind>(true),
{
    let keys = section_keys(text, section_name());
    if text.len() > 0 && manifest_well_formed(text) && (forall|k: int|
        0 <= k < keys.len() ==> !entry_matches(keys[k], package)) {
        lemma_find_entry_none(keys, package);
    }
}

/// `find_entry` yields nothing when no key matches.
proof fn lemma_find_entry_none(keys: Seq<Seq<char>>, package: Seq<char>)
    requires
        forall|k: int| 0 <= k < keys.len() ==> !entry_matches(keys[k], package),
    ensures
        find_entry(keys, package) is None,
    decreases keys.len(),
{
    if keys.len() > 0 {
        assert forall|k: int| 0 <= k < keys.drop_first().len() implies !entry_matches(
            keys.drop_first()[k],
            package,
        ) by {
            assert(keys.drop_first()[k] == keys[k + 1]);
        }
        lemma_find_entry_none(keys.drop_first(), package);
    }
}

/// A well-formed manifest that holds no entry for the package decides to
/// install: the package is not installed.
pub proof fn lemma_absent_package_installs(text: Seq<char>, package: Seq<char>, req: Seq<char>)
    ensures
        ({
            &&& text.len() > 0
            &&& manifest_well_formed(text)
            &&& find_entry(section_keys(text, section_name()), package) is None
        }) ==> spec_should_install(text, package, req) == Ok::<bool, ErrorKind>(true),
{
}

/// A key that matched the package always carries a version field: matching
/// demands the space right after the package name, and any space splits the
/// key into at least two fields.
pub proof fn lemma_matched_entry_is_well_formed(key: Seq<char>, package: Seq<char>)
    ensures
        entry_matches(key, package) ==> entry_well_formed(key),
{
    if entry_matches(key, package) {
        lemma_space_offset_le(key);
        lemma_space_offset_first(key);
        lemma_split_second(key);
    }
}

/// Whatever key `find_entry` yields, it matched the package.
proof fn lemma_find_entry_matches(keys: Seq<Seq<char>>, package: Seq<char>)
    ensures
        find_entry(keys, package) matches Some(key) ==> entry_matches(key, package),
    decreases keys.len(),
{
    if keys.len() > 0 && !entry_matches(keys[0], package) {
        lemma_find_entry_matches(keys.drop_first(), package);
    }
}

/// The decision never reports a malformed entry: only a matched key is read
/// for its version field, and a matched key always has one.
pub proof fn lemma_no_malformed_entry(text: Seq<char>, package: Seq<char>, req: Seq<char>)
    ensures
        spec_should_install(text, package, req) != Err::<bool, ErrorKind>(
            ErrorKind::MalformedEntry,
        ),
{
    let keys = section_keys(text, section_name());
    lemma_find_entry_matches(keys, package);
    match find_entry(keys, package) {
        Some(key) => lemma_matched_entry_is_well_formed(key, package),
        None => {},
    }
}

/// Each error comes exactly from its own fault, never on an empty text: the
/// manifest fails to parse, the required section is absent or is no table,
/// or the matched entry's recorded version is not a semantic version.
pub proof fn lemma_error_taxonomy(text: Seq<char>, package: Seq<char>, req: Seq<char>)
    ensures
        spec_should_install(text, package, req) == Err::<bool, ErrorKind>(ErrorKind::Malformed)
            <==> text.len() > 0 && !toml_doc_ok(text),
        spec_should_install(text, package, req) == Err::<bool, ErrorKind>(
            ErrorKind::MissingSection,
        ) <==> text.len() > 0 && toml_doc_ok(text) && !section_present(text, section_name()),
        spec_should_install(text, package, req) == Err::<bool, ErrorKind>(
            ErrorKind::WrongSectionType,
        ) <==> text.len() > 0 && toml_doc_ok(text) && section_present(text, section_name())
            && !section_is_table(text, section_name()),
        spec_should_install(text, package, req) == Err::<bool, ErrorKind>(
            ErrorKind::InvalidVersion,
        ) <==> (text.len() > 0 && manifest_well_formed(text) && (find_entry(
            section_keys(text, section_name()),
            package,
        ) matches Some(key) && entry_well_formed(key) && !semver_ok(version_field(key)))),
{
}

/// Round trip: the installed-version text derived from an entry key is a
/// function of that key alone, and the version it parses to is a function
/// of that text alone. Deriving the text again from the same key therefore
/// re-parses to the identical version: it is accepted by semver exactly as
/// before and satisfies exactly the same requirements.
pub proof fn lemma_version_round_trip(key1: Seq<char>, key2: Seq<char>, req: Seq<char>)
    ensures
        key1 == key2 ==> version_field(key1) == version_field(key2),
        version_field(key1) == version_field(key2) ==> semver_ok(version_field(key1)) == semver_ok(
            version_field(key2),
        ) && req_matches(req, version_field(key1)) == req_matches(req, version_field(key2)),
{
}

} // verus!
