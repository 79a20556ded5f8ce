//! Semantic versions and version requirements, each kept with the text it
//! was parsed from. Parsing and matching are done by the semver crate; what
//! they yield is named here as a function of the texts alone.

use vstd::prelude::*;

verus! {

/// Declares semver's requirement type, so a field can hold one; its inside
/// stays opaque here.
#[verifier::external_type_specification]
#[verifier::external_body]
pub struct ExVersionReq(semver::VersionReq);

/// Declares semver's version type, so a field can hold one; its inside
/// stays opaque here.
#[verifier::external_type_specification]
#[verifier::external_body]
pub struct ExVersion(semver::Version);

/// Whether semver accepts `s` as a version requirement.
pub uninterp spec fn req_ok(s: Seq<char>) -> bool;

/// Whether semver accepts `s` as a version.
pub uninterp spec fn semver_ok(s: Seq<char>) -> bool;

/// Whether the version written `ver` satisfies the requirement written
/// `req`, under semver's range rules (a bare requirement is caret-compatible).
pub uninterp spec fn req_matches(req: Seq<char>, ver: Seq<char>) -> bool;

/// A version requirement, kept beside the text it was parsed from; its view
/// is that text.
pub struct VersionRequirement {
    raw: String,
    inner: semver::VersionReq,
}

impl View for VersionRequirement {
    type V = Seq<char>;

    closed spec fn view(&self) -> Seq<char> {
        self.raw@
    }
}

/// An installed version, kept beside the text it was parsed from; its view
/// is that text.
pub struct InstalledVersion {
    raw: String,
    inner: semver::Version,
}

impl View for InstalledVersion {
    type V = Seq<char>;

    closed spec fn view(&self) -> Seq<char> {
        self.raw@
    }
}

/// Relies on semver::VersionReq::parse: whether it succeeds depends on the
/// text alone, and the requirement returned is the one that text denotes.
#[verifier::external_body]
pub fn parse_requirement(s: &str) -> (r: Option<VersionRequirement>)
    ensures
        r is Some <==> req_ok(s@),
        r matches Some(req) ==> req@ == s@,
{
    match semver::VersionReq::parse(s) {
        Ok(inner) => Some(VersionRequirement { raw: s.to_owned(), inner }),
        Err(_) => None,
    }
}

/// Relies on semver::Version::parse: whether it succeeds depends on the
/// text alone, and the version returned is the one that text denotes.
#[verifier::external_body]
pub fn parse_version(s: &str) -> (r: Option<InstalledVersion>)
    ensures
        r is Some <==> semver_ok(s@),
        r matches Some(v) ==> v@ == s@,
{
    match semver::Version::parse(s) {
        Ok(inner) => Some(InstalledVersion { raw: s.to_owned(), inner }),
        Err(_) => None,
    }
}

/// Relies on semver::VersionReq::matches: the outcome depends only on the
/// requirement and the version, each of which is determined by the text it
/// was parsed from and carried here beside it.
#[verifier::external_body]
pub fn requirement_matches(req: &VersionRequirement, ver: &InstalledVersion) -> (r: bool)
    ensures
        r == req_matches(req@, ver@),
{
    req.inner.matches(&ver.inner)
}

} // verus!
