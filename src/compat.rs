//! Which manifest entries a given library version must be able to read.

use vstd::prelude::*;

use crate::manifest::Testcase;

verus! {

/// semver's parsed version, held opaque.
#[verifier::external_type_specification]
#[verifier::external_body]
pub struct ExVersion(semver::Version);

/// semver's parsed version requirement, held opaque.
#[verifier::external_type_specification]
#[verifier::external_body]
pub struct ExVersionReq(semver::VersionReq);

/// semver's parse error, held opaque.
#[verifier::external_type_specification]
#[verifier::external_body]
pub struct ExSemverError(semver::Error);

/// Whether semver reads `text` as a version.
pub uninterp spec fn semver_accepts_version(text: Seq<char>) -> bool;

/// Whether semver reads `text` as a version requirement.
pub uninterp spec fn semver_accepts_requirement(text: Seq<char>) -> bool;

/// Relies on `semver::Version::parse`: whether it succeeds depends on the text
/// alone.
pub assume_specification[ semver::Version::parse ](text: &str) -> (r: Result<
    semver::Version,
    semver::Error,
>)
    ensures
        r is Ok <==> semver_accepts_version(text@),
;

/// Relies on `semver::VersionReq::parse`: whether it succeeds depends on the
/// text alone.
pub assume_specification[ semver::VersionReq::parse ](text: &str) -> (r: Result<
    semver::VersionReq,
    semver::Error,
>)
    ensures
        r is Ok <==> semver_accepts_requirement(text@),
;

/// semver's verdict on whether the version written `version` meets the
/// requirement written `requirement`.
pub uninterp spec fn semver_meets(requirement: Seq<char>, version: Seq<char>) -> bool;

/// Relies on `semver::VersionReq::matches` applied to what
/// `semver::VersionReq::parse` and `semver::Version::parse` make of the two
/// texts: the verdict depends on the texts alone. Both parses succeed on the
/// texts that `requires` admits.
#[verifier::external_body]
fn requirement_matches(requirement: &str, version: &str) -> (r: bool)
    requires
        semver_accepts_requirement(requirement@),
        semver_accepts_version(version@),
    ensures
        r == semver_meets(requirement@, version@),
{
    let req = semver::VersionReq::parse(requirement).unwrap();
    let v = semver::Version::parse(version).unwrap();
    req.matches(&v)
}

/// Why a version could not be checked against an entry.
#[derive(Clone, Copy, Debug, PartialEq, Eq, Structural)]
pub enum VersionCheckError {
    /// The version under test is not a semantic version.
    InvalidVersion,
    /// The entry's minimum version does not make a requirement.
    InvalidRequirement,
}

/// The requirement that a version be at least `min`.
pub open spec fn min_requirement(min: Seq<char>) -> Seq<char> {
    seq!['>', '='] + min
}

impl Testcase {
    /// The requirement that this entry places on the versions that replay it.
    pub fn requirement(&self) -> (r: String)
        ensures
            r@ == min_requirement(self.tfhe_version_min@),
    {
        proof {
            reveal_strlit(">=");
            assert(">="@ =~= seq!['>', '=']);
        }
        let mut r = String::from_str(">=");
        r.append(self.tfhe_version_min.as_str());
        r
    }

    /// Whether version `version` of the library must be able to read this
    /// entry's fixture: whether it meets `>=` the entry's minimum version, as
    /// semver decides. Both texts must be understood by semver; see
    /// `check_version` for a form that tests them first.
    pub fn is_valid_for_version(&self, version: &str) -> (r: bool)
        requires
            semver_accepts_version(version@),
            semver_accepts_requirement(min_requirement(self.tfhe_version_min@)),
        ensures
            r == semver_meets(min_requirement(self.tfhe_version_min@), version@),
    {
        let req = self.requirement();
        requirement_matches(req.as_str(), version)
    }

    /// `is_valid_for_version` on any texts: fails when the version under test,
    /// or the requirement made from the entry's minimum, is not understood.
    pub fn check_version(&self, version: &str) -> (r: Result<bool, VersionCheckError>)
        ensures
            r == Err::<bool, _>(VersionCheckError::InvalidVersion) <==> !semver_accepts_version(
                version@,
            ),
            r == Err::<bool, _>(VersionCheckError::InvalidRequirement) <==> semver_accepts_version(
                version@,
            ) && !semver_accepts_requirement(min_requirement(self.tfhe_version_min@)),
            r is Ok <==> semver_accepts_version(version@) && semver_accepts_requirement(
                min_requirement(self.tfhe_version_min@),
            ),
            r is Ok ==> r->Ok_0 == semver_meets(min_requirement(self.tfhe_version_min@), version@),
    {
        if semver::Version::parse(version).is_err() {
            return Err(VersionCheckError::InvalidVersion);
        }
        let req = self.requirement();
        if semver::VersionReq::parse(req.as_str()).is_err() {
            return Err(VersionCheckError::InvalidRequirement);
        }
        Ok(self.is_valid_for_version(version))
    }
}

} // verus!
