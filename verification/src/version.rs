//! Test of the version of the spatial extension of a database against the
//! versions that the server works with.

use vstd::prelude::*;
use vstd::string::*;

verus! {

/// Why a version cannot be tested.
#[derive(Clone, Copy, Debug, PartialEq, Eq, Hash, Structural)]
pub enum VersionError {
    /// The requirement is no version requirement.
    BadRequirement,
    /// The version is no version.
    BadVersion,
}

/// Whether `semver::VersionReq::parse` accepts a text.
pub uninterp spec fn is_version_req(text: Seq<char>) -> bool;

/// Whether `semver::Version::parse` accepts a text.
pub uninterp spec fn is_version(text: Seq<char>) -> bool;

/// Whether `semver::VersionReq::matches` finds that the version that a text
/// stands for meets the requirement that another text stands for.
pub uninterp spec fn version_meets(requirement: Seq<char>, version: Seq<char>) -> bool;

/// Calls `semver::VersionReq::parse`. The contract says only that whether
/// the text is accepted is a function of the text.
#[verifier::external_body]
fn requirement_parses(text: &str) -> (accepted: bool)
    ensures
        accepted == is_version_req(text@),
{
    semver::VersionReq::parse(text).is_ok()
}

/// Calls `semver::Version::parse`. The contract says only that whether the
/// text is accepted is a function of the text.
#[verifier::external_body]
fn version_parses(text: &str) -> (accepted: bool)
    ensures
        accepted == is_version(text@),
{
    semver::Version::parse(text).is_ok()
}

/// Calls `semver::VersionReq::matches` on what the two texts stand for. The
/// contract says only that the result is a function of the two texts.
#[verifier::external_body]
fn requirement_met(requirement: &str, version: &str) -> (met: bool)
    requires
        is_version_req(requirement@),
        is_version(version@),
    ensures
        met == version_meets(requirement@, version@),
{
    match (semver::VersionReq::parse(requirement), semver::Version::parse(version)) {
        (Ok(requirement), Ok(version)) => requirement.matches(&version),
        _ => false,
    }
}

/// What the test of a version against a requirement gives. The requirement
/// is read first.
pub open spec fn spec_check_version(requirement: Seq<char>, version: Seq<char>) -> Result<
    bool,
    VersionError,
> {
    if !is_version_req(requirement) {
        Err(VersionError::BadRequirement)
    } else if !is_version(version) {
        Err(VersionError::BadVersion)
    } else {
        Ok(version_meets(requirement, version))
    }
}

/// Tests whether the version that the database reports meets the
/// requirement.
pub fn check_postgis_version(required_postgis_version: &str, postgis_version: &str) -> (checked:
    Result<bool, VersionError>)
    ensures
        checked == spec_check_version(required_postgis_version@, postgis_version@),
{
    if !requirement_parses(required_postgis_version) {
        return Err(VersionError::BadRequirement);
    }
    if !version_parses(postgis_version) {
        return Err(VersionError::BadVersion);
    }
    Ok(requirement_met(required_postgis_version, postgis_version))
}

} // verus!
