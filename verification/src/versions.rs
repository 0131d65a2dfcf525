//! Semantic versions and version constraints, held behind the `semver`
//! crate. A parsed value keeps the text it was parsed from; every result of
//! the trusted calls below is a function of that text alone, so contracts
//! speak of the texts through uninterpreted names.

use vstd::prelude::*;

verus! {

#[verifier::external_type_specification]
#[verifier::external_body]
pub struct ExVersion(semver::Version);

#[verifier::external_type_specification]
#[verifier::external_body]
pub struct ExVersionReq(semver::VersionReq);

/// Whether `semver::Version::parse` accepts this text.
pub uninterp spec fn version_parses(s: Seq<char>) -> bool;

/// Whether the version parsed from `a` orders strictly below the version
/// parsed from `b`, under the total order of `semver::Version`.
pub uninterp spec fn version_lt(a: Seq<char>, b: Seq<char>) -> bool;

/// Whether `semver::VersionReq::parse` accepts this text.
pub uninterp spec fn req_parses(s: Seq<char>) -> bool;

/// Whether the constraint parsed from `req` matches the version parsed
/// from `version`, as `semver::VersionReq::matches` decides it.
pub uninterp spec fn req_matches(req: Seq<char>, version: Seq<char>) -> bool;

/// An optional constraint as text, absent meaning "match anything".
pub open spec fn opt_req_view(req: &Option<Constraint>) -> Option<Seq<char>> {
    match req {
        Option::None => Option::None,
        Option::Some(c) => Option::Some(c@),
    }
}

/// A semantic version: the text it was parsed from, beside the parsed value.
/// Only `parse_version` constructs one, so the two always correspond.
pub(crate) struct SemVer {
    repr: semver::Version,
    text: String,
}

impl View for SemVer {
    type V = Seq<char>;

    closed spec fn view(&self) -> Seq<char> {
        self.text@
    }
}

/// A version constraint: the text it was parsed from, beside the parsed
/// value. Only `parse_constraint` constructs one.
pub struct Constraint {
    repr: semver::VersionReq,
    text: String,
}

impl View for Constraint {
    type V = Seq<char>;

    closed spec fn view(&self) -> Seq<char> {
        self.text@
    }
}

/// Relies on `semver::Version::parse`: success and the parsed value depend
/// on the text alone. The derived `Ord` on `semver::Version` is a strict
/// total order, so no version orders below itself.
#[verifier::external_body]
pub(crate) fn parse_version(s: &str) -> (r: Option<SemVer>)
    ensures
        r is Some <==> version_parses(s@),
        r matches Some(v) ==> v@ == s@,
        r is Some ==> !version_lt(s@, s@),
{
    match semver::Version::parse(s) {
        Ok(repr) => Some(SemVer { repr, text: s.to_owned() }),
        Err(_) => None,
    }
}

/// Relies on the derived `Ord` on `semver::Version`, a strict total order:
/// the result depends on the two texts alone, and by transitivity anything
/// above `b` is also above `a` whenever `a` orders below `b`.
#[verifier::external_body]
pub(crate) fn version_precedes(a: &SemVer, b: &SemVer) -> (r: bool)
    ensures
        r == version_lt(a@, b@),
        r ==> (forall|c: Seq<char>| version_lt(b@, c) ==> version_lt(a@, c)),
{
    a.repr < b.repr
}

/// Relies on `semver::VersionReq::parse`: success and the parsed value
/// depend on the text alone.
#[verifier::external_body]
pub(crate) fn parse_constraint(s: &str) -> (r: Option<Constraint>)
    ensures
        r is Some <==> req_parses(s@),
        r matches Some(c) ==> c@ == s@,
{
    match semver::VersionReq::parse(s) {
        Ok(repr) => Some(Constraint { repr, text: s.to_owned() }),
        Err(_) => None,
    }
}

/// Relies on `semver::VersionReq::matches`: the result depends on the
/// constraint text and the version text alone.
#[verifier::external_body]
pub(crate) fn constraint_matches(req: &Constraint, v: &SemVer) -> (r: bool)
    ensures
        r == req_matches(req@, v@),
{
    req.repr.matches(&v.repr)
}

impl Constraint {
    /// The constraint as the text it was parsed from.
    pub fn as_str(&self) -> (r: &str)
        ensures
            r@ == self@,
    {
        self.text.as_str()
    }
}

} // verus!
