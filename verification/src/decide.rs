//! The install decision: given the manifest text, a package name and a
//! version requirement, decide whether the package must be installed.

use vstd::prelude::*;
use vstd::string::StrSliceExecFns;

use crate::manifest::{
    read_manifest, section_is_table, section_keys, section_present, toml_doc_ok, RawManifest,
};
use crate::text::{
    find_space_from, lemma_space_offset_unique, lemma_split_second, space_offset, split_on_spaces,
};
use crate::version::{
    parse_version, req_matches, requirement_matches, semver_ok, VersionRequirement,
};

verus! {

/// Which decision error occurred: the payload-free mirror of `DecisionError`.
pub enum ErrorKind {
    Malformed,
    MissingSection,
    WrongSectionType,
    MalformedEntry,
    InvalidVersion,
}

/// Why no decision could be made; every variant carries the manifest path
/// for diagnostics.
#[derive(Debug, PartialEq, Eq)]
pub enum DecisionError {
    /// The manifest text is not a well-formed document: path, parser message.
    Malformed(String, String),
    /// The required section is absent: path.
    MissingSection(String),
    /// The required section is not a table: path.
    WrongSectionType(String),
    /// The matched entry key lacks a version field: path, offending key.
    MalformedEntry(String, String),
    /// The recorded version is not a semantic version: path, offending text.
    InvalidVersion(String, String),
}

pub open spec fn kind_of(e: DecisionError) -> ErrorKind {
    match e {
        DecisionError::Malformed(_, _) => ErrorKind::Malformed,
        DecisionError::MissingSection(_) => ErrorKind::MissingSection,
        DecisionError::WrongSectionType(_) => ErrorKind::WrongSectionType,
        DecisionError::MalformedEntry(_, _) => ErrorKind::MalformedEntry,
        DecisionError::InvalidVersion(_, _) => ErrorKind::InvalidVersion,
    }
}

pub open spec fn error_path(e: DecisionError) -> Seq<char> {
    match e {
        DecisionError::Malformed(p, _) => p@,
        DecisionError::MissingSection(p) => p@,
        DecisionError::WrongSectionType(p) => p@,
        DecisionError::MalformedEntry(p, _) => p@,
        DecisionError::InvalidVersion(p, _) => p@,
    }
}

/// The one required top-level section of the manifest.
pub open spec fn section_name() -> Seq<char> {
    "v1"@
}

/// An entry key records the package exactly when it begins with the package
/// name followed by one space. A name of which the package is merely a
/// proper prefix does not match: the character right after the name must be
/// the space itself.
pub open spec fn entry_matches(key: Seq<char>, package: Seq<char>) -> bool {
    &&& key.len() > package.len()
    &&& key.subrange(0, package.len() as int) == package
    &&& key[package.len() as int] == ' '
}

/// The first key naming the package, scanning the keys in order.
pub open spec fn find_entry(keys: Seq<Seq<char>>, package: Seq<char>) -> Option<Seq<char>>
    decreases keys.len(),
{
    if keys.len() == 0 {
        None
    } else if entry_matches(keys[0], package) {
        Some(keys[0])
    } else {
        find_entry(keys.drop_first(), package)
    }
}

/// A matched entry key must carry a version as its second space-delimited
/// field; a key split into fewer than two fields is malformed.
pub open spec fn entry_well_formed(key: Seq<char>) -> bool {
    split_on_spaces(key).len() >= 2
}

/// The version recorded in an entry key: its second space-delimited field.
pub open spec fn version_field(key: Seq<char>) -> Seq<char> {
    split_on_spaces(key)[1]
}

/// The whole decision, written over the manifest text, the package name and
/// the requirement text: an empty manifest means nothing is installed; a
/// non-empty one must be a document whose required section is a table; an
/// absent entry means install; a present entry's recorded version decides,
/// and only a version that satisfies the requirement skips the install.
pub open spec fn spec_should_install(text: Seq<char>, package: Seq<char>, req: Seq<char>) -> Result<
    bool,
    ErrorKind,
> {
    if text.len() == 0 {
        Ok(true)
    } else if !toml_doc_ok(text) {
        Err(ErrorKind::Malformed)
    } else if !section_present(text, section_name()) {
        Err(ErrorKind::MissingSection)
    } else if !section_is_table(text, section_name()) {
        Err(ErrorKind::WrongSectionType)
    } else {
        match find_entry(section_keys(text, section_name()), package) {
            None => Ok(true),
            Some(key) => {
                if !entry_well_formed(key) {
                    Err(ErrorKind::MalformedEntry)
                } else if !semver_ok(version_field(key)) {
                    Err(ErrorKind::InvalidVersion)
                } else {
                    Ok(!req_matches(req, version_field(key)))
                }
            },
        }
    }
}

/// How an executable decision relates to the spec-level one: same success,
/// same value, same error kind; every error carries the manifest path, and
/// the offending texts carried are the ones the manifest holds.
pub open spec fn decision_obeys(
    r: Result<bool, DecisionError>,
    s: Result<bool, ErrorKind>,
    path: Seq<char>,
    text: Seq<char>,
    package: Seq<char>,
) -> bool {
    &&& (r matches Ok(b) ==> s == Ok::<bool, ErrorKind>(b))
    &&& (r matches Err(e) ==> s == Err::<bool, ErrorKind>(kind_of(e)) && error_path(e) == path)
    &&& (r matches Err(DecisionError::MalformedEntry(_, k)) ==> find_entry(
        section_keys(text, section_name()),
        package,
    ) == Some(k@))
    &&& (r matches Err(DecisionError::InvalidVersion(_, v)) ==> (find_entry(
        section_keys(text, section_name()),
        package,
    ) matches Some(key) && v@ == version_field(key)))
}

/// `key` begins with `package` followed by one space.
fn key_matches(key: &str, package: &str) -> (b: bool)
    ensures
        b == entry_matches(key@, package@),
{
    let klen = key.unicode_len();
    let plen = package.unicode_len();
    if klen <= plen {
        return false;
    }
    let mut j: usize = 0;
    while j < plen
        invariant
            0 <= j <= plen,
            plen == package@.len(),
            klen == key@.len(),
            klen > plen,
            forall|k: int| 0 <= k < j ==> key@[k] == package@[k],
        decreases plen - j,
    {
        if key.get_char(j) != package.get_char(j) {
            proof {
                assert(key@.subrange(0, plen as int)[j as int] == key@[j as int]);
            }
            return false;
        }
        j = j + 1;
    }
    if key.get_char(plen) == ' ' {
        proof {
            assert(key@.subrange(0, plen as int) =~= package@);
        }
        true
    } else {
        false
    }
}

/// Scanning forward, the first index free of matches pins `find_entry` down.
proof fn lemma_find_entry_at(keys: Seq<Seq<char>>, package: Seq<char>, i: int)
    requires
        0 <= i <= keys.len(),
        forall|k: int| 0 <= k < i ==> !entry_matches(keys[k], package),
    ensures
        i == keys.len() ==> find_entry(keys, package) is None,
        i < keys.len() && entry_matches(keys[i], package) ==> find_entry(keys, package) == Some(
            keys[i],
        ),
    decreases keys.len(),
{
    if keys.len() > 0 && !entry_matches(keys[0], package) && i > 0 {
        assert forall|k: int| 0 <= k < i - 1 implies !entry_matches(
            keys.drop_first()[k],
            package,
        ) by {
            assert(keys.drop_first()[k] == keys[k + 1]);
        }
        lemma_find_entry_at(keys.drop_first(), package, i - 1);
        if i < keys.len() {
            assert(keys.drop_first()[i - 1] == keys[i]);
        }
    }
}

/// Index of the first key naming the package, if any key does.
fn find_matching_key(keys: &Vec<String>, package: &str) -> (r: Option<usize>)
    ensures
        match r {
            Some(i) => {
                &&& i < keys.len()
                &&& find_entry(keys.deep_view(), package@) == Some(keys@[i as int]@)
            },
            None => find_entry(keys.deep_view(), package@) is None,
        },
{
    let mut i: usize = 0;
    while i < keys.len()
        invariant
            0 <= i <= keys.len(),
            forall|k: int| 0 <= k < i ==> !entry_matches(keys.deep_view()[k], package@),
        decreases keys.len() - i,
    {
        if key_matches(keys[i].as_str(), package) {
            proof {
                assert(keys.deep_view()[i as int] == keys@[i as int]@);
                lemma_find_entry_at(keys.deep_view(), package@, i as int);
            }
            return Some(i);
        }
        proof {
            assert(keys.deep_view()[i as int] == keys@[i as int]@);
        }
        i = i + 1;
    }
    proof {
        lemma_find_entry_at(keys.deep_view(), package@, keys@.len() as int);
    }
    None
}

/// The second space-delimited field of `key`, when it has one: the version
/// text an installed-entry key records.
pub fn extract_version_text(key: &str) -> (r: Option<String>)
    ensures
        r is Some <==> entry_well_formed(key@),
        r matches Some(v) ==> v@ == version_field(key@),
{
    let n = key.unicode_len();
    match find_space_from(key, 0) {
        None => {
            proof {
                lemma_space_offset_unique(key@, n as int);
                lemma_split_second(key@);
            }
            None
        },
        Some(i) => {
            proof {
                lemma_space_offset_unique(key@, i as int);
                lemma_split_second(key@);
            }
            let j = match find_space_from(key, i + 1) {
                None => n,
                Some(j) => j,
            };
            let field = key.substring_char(i + 1, j);
            proof {
                let rest = key@.skip(i as int + 1);
                assert forall|k: int| 0 <= k < j - i - 1 implies rest[k] != ' ' by {
                    assert(rest[k] == key@[k + i + 1]);
                }
                if j < n {
                    assert(rest[j - i - 1] == key@[j as int]);
                }
                lemma_space_offset_unique(rest, j - i - 1);
                assert(field@ =~= rest.subrange(0, space_offset(rest) as int));
            }
            Some(field.to_owned())
        },
    }
}

/// Decide whether the package must be installed. `manifest_path` is carried
/// into every error for diagnostics; `text` is the manifest's content, empty
/// when the manifest file does not exist.
pub fn should_install(
    manifest_path: &str,
    text: &str,
    package: &str,
    requirement: &VersionRequirement,
) -> (r: Result<bool, DecisionError>)
    ensures
        decision_obeys(
            r,
            spec_should_install(text@, package@, requirement@),
            manifest_path@,
            text@,
            package@,
        ),
{
    if text.unicode_len() == 0 {
        return Ok(true);
    }
    let keys = match read_manifest(text, "v1") {
        RawManifest::Malformed(details) => {
            return Err(DecisionError::Malformed(manifest_path.to_owned(), details));
        },
        RawManifest::MissingSection => {
            return Err(DecisionError::MissingSection(manifest_path.to_owned()));
        },
        RawManifest::WrongSectionType => {
            return Err(DecisionError::WrongSectionType(manifest_path.to_owned()));
        },
        RawManifest::Table(keys) => keys,
    };
    match find_matching_key(&keys, package) {
        None => Ok(true),
        Some(i) => {
            let key = &keys[i];
            match extract_version_text(key.as_str()) {
                None => Err(
                    DecisionError::MalformedEntry(manifest_path.to_owned(), key.clone()),
                ),
                Some(version_text) => {
                    match parse_version(version_text.as_str()) {
                        None => Err(
                            DecisionError::InvalidVersion(manifest_path.to_owned(), version_text),
                        ),
                        Some(installed) => Ok(!requirement_matches(requirement, &installed)),
                    }
                },
            }
        },
    }
}

} // verus!
