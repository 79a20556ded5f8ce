//! Reading the installed-package manifest: a table-structured document whose
//! one required section maps installed-entry keys to metadata. The document
//! format is handled by the toml crate; everything it yields is named here as
//! a function of the text alone.

use vstd::prelude::*;

verus! {

/// Whether `text` is a well-formed document.
pub uninterp spec fn toml_doc_ok(text: Seq<char>) -> bool;

/// Whether the document written in `text` has a top-level entry named `section`.
pub uninterp spec fn section_present(text: Seq<char>, section: Seq<char>) -> bool;

/// Whether that entry is a table.
pub uninterp spec fn section_is_table(text: Seq<char>, section: Seq<char>) -> bool;

/// The keys of that table, in the order its iterator hands them out.
pub uninterp spec fn section_keys(text: Seq<char>, section: Seq<char>) -> Seq<Seq<char>>;

/// The outcome of reading the manifest: the keys of the required section's
/// table, or which structural check failed.
pub enum RawManifest {
    /// The text is not a well-formed document; carries the parser's message.
    Malformed(String),
    /// The document lacks the required section.
    MissingSection,
    /// The required section is present but is not a table.
    WrongSectionType,
    /// The keys of the section's table, one per installed entry.
    Table(Vec<String>),
}

/// Relies on toml: `str::parse::<toml::Table>` decides `toml_doc_ok`,
/// `toml::map::Map::get` decides `section_present`, `toml::Value::as_table`
/// decides `section_is_table`, and the table's `keys` iterator yields
/// `section_keys`; each of them depends on the text alone.
#[verifier::external_body]
pub fn read_manifest(text: &str, section: &str) -> (r: RawManifest)
    ensures
        match r {
            RawManifest::Malformed(_) => !toml_doc_ok(text@),
            RawManifest::MissingSection => toml_doc_ok(text@) && !section_present(
                text@,
                section@,
            ),
            RawManifest::WrongSectionType => toml_doc_ok(text@) && section_present(
                text@,
                section@,
            ) && !section_is_table(text@, section@),
            RawManifest::Table(keys) => toml_doc_ok(text@) && section_present(text@, section@)
                && section_is_table(text@, section@) && keys.deep_view() == section_keys(
                text@,
                section@,
            ),
        },
{
    match text.parse::<toml::Table>() {
        Err(err) => RawManifest::Malformed(err.to_string()),
        Ok(doc) => match doc.get(section) {
            None => RawManifest::MissingSection,
            Some(value) => match value.as_table() {
                None => RawManifest::WrongSectionType,
                Some(table) => RawManifest::Table(table.keys().cloned().collect()),
            },
        },
    }
}

} // verus!
