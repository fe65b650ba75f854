//! Semantic-version gating: validity of requirement and version strings,
//! requirement matching, and extraction of the first version-shaped token
//! from a version command's output.

use vstd::prelude::*;

use crate::errors::CheckError;
use crate::strutil::{split_tokens, tokens_of, views_of};

verus! {

/// Whether `s` parses as a semantic-version requirement; the result of
/// `semver::VersionReq::parse`, a function of the characters alone.
pub uninterp spec fn req_valid(s: Seq<char>) -> bool;

/// Whether `s` parses as a semantic version; the result of
/// `semver::Version::parse`, a function of the characters alone.
pub uninterp spec fn semver_valid(s: Seq<char>) -> bool;

/// Whether the well-formed requirement `req` accepts the well-formed
/// version `version`; the result of `semver::VersionReq::matches`, a
/// function of the two strings alone.
pub uninterp spec fn req_matches(req: Seq<char>, version: Seq<char>) -> bool;

/// Relies on `semver::VersionReq::parse`: whether a requirement string is
/// accepted depends on its characters alone.
#[verifier::external_body]
pub(crate) fn semver_req_is_valid(s: &str) -> (r: bool)
    ensures
        r == req_valid(s@),
{
    semver::VersionReq::parse(s).is_ok()
}

/// Relies on `semver::Version::parse`: whether a version string is accepted
/// depends on its characters alone.
#[verifier::external_body]
pub(crate) fn semver_version_is_valid(s: &str) -> (r: bool)
    ensures
        r == semver_valid(s@),
{
    semver::Version::parse(s).is_ok()
}

/// Relies on `semver::VersionReq::parse`, `semver::Version::parse` and
/// `semver::VersionReq::matches`: parses both strings and, when both are
/// well formed, asks whether the requirement accepts the version.
#[verifier::external_body]
pub(crate) fn semver_req_matches(req: &str, version: &str) -> (r: Option<bool>)
    ensures
        r is Some <==> (req_valid(req@) && semver_valid(version@)),
        r matches Some(m) ==> m == req_matches(req@, version@),
{
    match (semver::VersionReq::parse(req), semver::Version::parse(version)) {
        (Ok(r), Ok(v)) => Some(r.matches(&v)),
        _ => None,
    }
}

pub open spec fn first_valid_token(ts: Seq<Seq<char>>) -> Option<Seq<char>>
    decreases ts.len(),
{
    if ts.len() == 0 {
        None
    } else if semver_valid(ts[0]) {
        Some(ts[0])
    } else {
        first_valid_token(ts.drop_first())
    }
}

/// The first whitespace-delimited token of `out` that parses as a semantic
/// version, if any.
pub open spec fn first_semver_token(out: Seq<char>) -> Option<Seq<char>> {
    first_valid_token(tokens_of(out))
}

/// Find the first whitespace-delimited token that parses as a version.
pub fn select_version_token(out: &str) -> (r: Option<String>)
    ensures
        r is Some <==> first_semver_token(out@) is Some,
        r matches Some(t) ==> first_semver_token(out@) == Some(t@) && semver_valid(t@),
{
    let toks = split_tokens(out);
    let ghost all = views_of(toks@);
    let mut i: usize = 0;
    proof {
        assert(all.skip(0) =~= all);
    }
    while i < toks.len()
        invariant
            i <= toks@.len(),
            all == views_of(toks@),
            tokens_of(out@) == all,
            first_valid_token(all) == first_valid_token(all.skip(i as int)),
        decreases toks@.len() - i,
    {
        proof {
            assert(all.skip(i as int)[0] == all[i as int]);
            assert(all.skip(i as int).drop_first() =~= all.skip(i + 1));
        }
        if semver_version_is_valid(toks[i].as_str()) {
            let t = toks[i].clone();
            proof {
                assert(first_valid_token(all.skip(i as int)) == Some(all[i as int]));
            }
            return Some(t);
        }
        i = i + 1;
    }
    proof {
        assert(all.skip(i as int).len() == 0);
    }
    None
}

/// Decide the version gate: extract the first version-shaped token of the
/// version command's output and hold it against the requirement.  Returns
/// the accepted version string.
pub fn version_gate(req: &String, out: &String) -> (r: Result<String, CheckError>)
    requires
        req_valid(req@),
    ensures
        first_semver_token(out@) is None <==> (r matches Err(e)
            && e matches CheckError::VersionFind(o) && o@ == out@),
        first_semver_token(out@) matches Some(t) ==> {
            &&& req_matches(req@, t) <==> (r matches Ok(v) && v@ == t)
            &&& !req_matches(req@, t) <==> (r matches Err(e)
                && e matches CheckError::VersionReq { version_req, version }
                && version_req@ == req@ && version@ == t)
        },
{
    match select_version_token(out.as_str()) {
        None => Err(CheckError::VersionFind(out.clone())),
        Some(v) => {
            match semver_req_matches(req.as_str(), v.as_str()) {
                Some(true) => Ok(v),
                Some(false) => Err(
                    CheckError::VersionReq { version_req: req.clone(), version: v },
                ),
                None => unreached(),
            }
        },
    }
}

} // verus!
