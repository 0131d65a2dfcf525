//! Version resolution: select the best version from a registry snapshot
//! under a constraint and a yanked-version policy.

use vstd::prelude::*;

use crate::versions::{
    constraint_matches, opt_req_view, parse_version, req_matches, version_lt, version_parses,
    version_precedes, Constraint, SemVer,
};

verus! {

/// One version entry from the registry snapshot for a package.
pub struct VersionRecord {
    /// The version text exactly as the snapshot lists it.
    pub version: String,
    /// The expected SHA-256 digest of the packaged artifact.
    pub checksum: Vec<u8>,
    /// Whether the version has been withdrawn from unconstrained selection.
    pub yanked: bool,
}

/// Whether a version text satisfies an optional constraint; no constraint
/// matches everything.
pub open spec fn matches_opt(req: Option<Seq<char>>, version: Seq<char>) -> bool {
    match req {
        Option::None => true,
        Option::Some(r) => req_matches(r, version),
    }
}

/// A record the resolver may select: allowed by the yank policy, its
/// version text parses as a semantic version, and it satisfies the
/// constraint.
pub open spec fn eligible(
    rec: VersionRecord,
    req: Option<Seq<char>>,
    allow_yanked: bool,
) -> bool {
    &&& allow_yanked || !rec.yanked
    &&& version_parses(rec.version@)
    &&& matches_opt(req, rec.version@)
}

/// A yanked record that would have matched: surfaced only as a hint.
pub open spec fn yanked_candidate(rec: VersionRecord, req: Option<Seq<char>>) -> bool {
    &&& rec.yanked
    &&& version_parses(rec.version@)
    &&& matches_opt(req, rec.version@)
}

/// The outcome of resolution: the index of the selected record, or no
/// match, with the index of the best matching yanked version as a hint.
pub enum Resolution {
    Selected(usize),
    NoMatch { yanked_hint: Option<usize> },
}

/// Which records a selection pass considers, with respect to yanking.
enum YankPass {
    Policy(bool),
    OnlyYanked,
}

/// Whether a record passes a selection pass's yank test.
spec fn passes_yank(pass: YankPass, yanked: bool) -> bool {
    match pass {
        YankPass::Policy(allow) => allow || !yanked,
        YankPass::OnlyYanked => yanked,
    }
}

/// A record a selection pass considers: passes the yank test, parses, and
/// satisfies the constraint.
spec fn pass_candidate(rec: VersionRecord, req: Option<Seq<char>>, pass: YankPass) -> bool {
    &&& passes_yank(pass, rec.yanked)
    &&& version_parses(rec.version@)
    &&& matches_opt(req, rec.version@)
}

/// One selection pass: among the records the pass considers, return the
/// index of the one with the highest version, or `None` if the pass
/// considers none.
fn select_best(records: &Vec<VersionRecord>, req: &Option<Constraint>, pass: YankPass) -> (r:
    Option<usize>)
    ensures
        r matches Some(i) ==> i < records@.len() && pass_candidate(
            records@[i as int],
            opt_req_view(req),
            pass,
        ) && (forall|j: int|
            0 <= j < records@.len() && pass_candidate(records@[j], opt_req_view(req), pass)
                ==> !version_lt(records@[i as int].version@, records@[j].version@)),
        r is None ==> (forall|j: int|
            0 <= j < records@.len() ==> !pass_candidate(records@[j], opt_req_view(req), pass)),
{
    let ghost req_v = opt_req_view(req);
    let mut best: Option<(usize, SemVer)> = None;
    let n = records.len();
    let mut k: usize = 0;
    while k < n
        invariant
            n == records@.len(),
            k <= n,
            req_v == opt_req_view(req),
            best matches Some((i, v)) ==> i < k && v@ == records@[i as int].version@
                && pass_candidate(records@[i as int], req_v, pass) && !version_lt(v@, v@) && (
            forall|j: int|
                0 <= j < k && pass_candidate(records@[j], req_v, pass) ==> !version_lt(
                    v@,
                    records@[j].version@,
                )),
            best is None ==> (forall|j: int|
                0 <= j < k ==> !pass_candidate(records@[j], req_v, pass)),
        decreases n - k,
    {
        let rec = &records[k];
        let yank_ok = match pass {
            YankPass::Policy(allow) => allow || !rec.yanked,
            YankPass::OnlyYanked => rec.yanked,
        };
        if yank_ok {
            if let Some(v) = parse_version(rec.version.as_str()) {
                let req_ok = match req {
                    Some(c) => constraint_matches(c, &v),
                    None => true,
                };
                if req_ok {
                    assert(pass_candidate(records@[k as int], req_v, pass));
                    match best {
                        None => {
                            best = Some((k, v));
                        },
                        Some((bi, bv)) => {
                            if version_precedes(&bv, &v) {
                                best = Some((k, v));
                            } else {
                                best = Some((bi, bv));
                            }
                        },
                    }
                }
            }
        }
        k += 1;
    }
    match best {
        Some((i, _)) => Some(i),
        None => None,
    }
}

impl Resolution {
    /// The resolver's policy on yanked versions, stated on its own: a
    /// selection made without `allow_yanked` is never a yanked record.
    pub open spec fn respects_yank_policy(
        self,
        records: Seq<VersionRecord>,
        allow_yanked: bool,
    ) -> bool {
        self matches Resolution::Selected(i) ==> (!allow_yanked ==> !records[i as int].yanked)
    }
}

/// Resolve a package's registry snapshot against an optional constraint and
/// a yanked-version policy.
///
/// The selected record is eligible (allowed by the policy, semver-parseable,
/// matching) and no eligible record orders above it; a yanked version is
/// never selected unless the policy allows it. When nothing is eligible the
/// result is a non-fatal no-match carrying, as a hint only, the best yanked
/// record that would have matched, if one exists.
pub fn resolve(records: &Vec<VersionRecord>, req: &Option<Constraint>, allow_yanked: bool) -> (r:
    Resolution)
    ensures
        r matches Resolution::Selected(i) ==> i < records@.len() && eligible(
            records@[i as int],
            opt_req_view(req),
            allow_yanked,
        ) && (forall|j: int|
            0 <= j < records@.len() && eligible(records@[j], opt_req_view(req), allow_yanked)
                ==> !version_lt(records@[i as int].version@, records@[j].version@)),
        r is Selected <==> (exists|j: int|
            0 <= j < records@.len() && eligible(records@[j], opt_req_view(req), allow_yanked)),
        r.respects_yank_policy(records@, allow_yanked),
        r matches Resolution::NoMatch { yanked_hint } ==> (match yanked_hint {
            Option::Some(i) => i < records@.len() && yanked_candidate(
                records@[i as int],
                opt_req_view(req),
            ) && (forall|j: int|
                0 <= j < records@.len() && yanked_candidate(records@[j], opt_req_view(req))
                    ==> !version_lt(records@[i as int].version@, records@[j].version@)),
            Option::None => forall|j: int|
                0 <= j < records@.len() ==> !yanked_candidate(records@[j], opt_req_view(req)),
        }),
{
    proof {
        assert forall|rec: VersionRecord, rv: Option<Seq<char>>|
            pass_candidate(rec, rv, YankPass::Policy(allow_yanked)) == eligible(
                rec,
                rv,
                allow_yanked,
            ) by {}
    }
    match select_best(records, req, YankPass::Policy(allow_yanked)) {
        Some(i) => Resolution::Selected(i),
        None => {
            let hint = select_best(records, req, YankPass::OnlyYanked);
            proof {
                assert forall|rec: VersionRecord, rv: Option<Seq<char>>|
                    pass_candidate(rec, rv, YankPass::OnlyYanked) == yanked_candidate(rec, rv) by {}
            }
            Resolution::NoMatch { yanked_hint: hint }
        },
    }
}

} // verus!
