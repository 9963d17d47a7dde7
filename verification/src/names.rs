//! What this crate leaves to other crates and to the standard library: what
//! counts as a package name, a version requirement and a world name, and which
//! directory a path lies in. Each is believed as stated here, not proved.

use vstd::prelude::*;
use crate::text::opt_text;

verus! {

/// `url::Url`, the address of a registry: held and handed on, never read.
#[verifier::external_type_specification]
#[verifier::external_body]
pub struct ExUrl(url::Url);

/// `semver::Version`, the version of a package: held and handed on, never read.
#[verifier::external_type_specification]
#[verifier::external_body]
pub struct ExVersion(semver::Version);

/// `std::time::SystemTime`, the time a manifest was last changed: held and
/// handed on, never read.
#[verifier::external_type_specification]
#[verifier::external_body]
pub struct ExSystemTime(std::time::SystemTime);

/// `Clone::clone` of `semver::Version`: the copy is the same version.
pub assume_specification[ <semver::Version as Clone>::clone ](v: &semver::Version) -> (r:
    semver::Version)
    ensures
        r == *v,
;

/// `Clone::clone` of `std::time::SystemTime`, a `Copy` type: the copy is the
/// same time.
pub assume_specification[ <std::time::SystemTime as Clone>::clone ](
    t: &std::time::SystemTime,
) -> (r: std::time::SystemTime)
    ensures
        r == *t,
;

/// Whether `warg_protocol::registry::PackageName::new` accepts a text.
pub uninterp spec fn package_name_parses(s: Seq<char>) -> bool;

/// Whether `semver::VersionReq::parse` accepts a text.
pub uninterp spec fn version_req_parses(s: Seq<char>) -> bool;

/// Whether a text is a package name: one that
/// `warg_protocol::registry::PackageName::new` accepts. Such a text is a
/// namespace, a `:` and a name, both of letters, digits and `-`, so it holds
/// no `/`.
pub open spec fn package_name_valid(s: Seq<char>) -> bool {
    package_name_parses(s) && !s.contains('/')
}

/// Whether a text is a version requirement: one that
/// `semver::VersionReq::parse` accepts. Such a text is made of comparison
/// operators, digits, letters, spaces and `. - + , *`, so it holds no `@`.
pub open spec fn version_req_valid(s: Seq<char>) -> bool {
    version_req_parses(s) && !s.contains('@')
}

/// Whether `wit_parser::validate_id` accepts a text.
pub uninterp spec fn world_name_valid(s: Seq<char>) -> bool;

/// The directory that `std::path::Path::parent` gives for a path as text, if
/// it gives one.
pub uninterp spec fn parent_path(path: Seq<char>) -> Option<Seq<char>>;

/// Calls `warg_protocol::registry::PackageName::new` and tells whether it
/// returned a name. The call reads nothing but the text, so the answer is a
/// function of the text. It accepts a text only where what stands before and
/// after the last `:` is made of letters, digits and `-`, so never one that
/// holds a `/`.
#[verifier::external_body]
pub(crate) fn package_name_accepted(s: &str) -> (r: bool)
    ensures
        r == package_name_parses(s@),
        r ==> !s@.contains('/'),
{
    warg_protocol::registry::PackageName::new(s).is_ok()
}

/// Calls `semver::VersionReq::parse` and tells whether it returned a
/// requirement. The call reads nothing but the text. It accepts a text only
/// where it has read all of it, and reads nothing but comparison operators,
/// digits, letters, spaces and `. - + , *`, so never one that holds an `@`.
#[verifier::external_body]
pub(crate) fn version_req_accepted(s: &str) -> (r: bool)
    ensures
        r == version_req_parses(s@),
        r ==> !s@.contains('@'),
{
    semver::VersionReq::parse(s).is_ok()
}

/// Calls `wit_parser::validate_id` and tells whether it accepted the text as
/// an identifier. The call reads nothing but the text.
#[verifier::external_body]
pub(crate) fn world_name_accepted(s: &str) -> (r: bool)
    ensures
        r == world_name_valid(s@),
{
    wit_parser::validate_id(s).is_ok()
}

/// Calls `std::path::Path::parent` on a path given as text: the path without
/// its last component, or nothing where the path ends in a root or is empty.
#[verifier::external_body]
pub(crate) fn parent_of(path: &str) -> (r: Option<String>)
    ensures
        opt_text(r) == parent_path(path@),
{
    match std::path::Path::new(path).parent() {
        Some(p) => Some(p.to_string_lossy().into_owned()),
        None => None,
    }
}

} // verus!
