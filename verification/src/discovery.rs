//! Validating the configured endpoint set and establishing one consistent
//! view of cluster membership.
//!
//! Probing an endpoint (opening a channel, issuing the membership call) is
//! transport work and happens outside this crate; what each probe yielded
//! is handed in as a [`ProbeOutcome`].  Everything decided from those
//! outcomes — configuration checks, cluster-identifier cross-checking,
//! which response is retained — is verified here.

use vstd::prelude::*;
use crate::errors::PdError;
use crate::messages::GetMembersResponse;
use crate::search::{first_where, lemma_first_where, lemma_first_where_is};

verus! {

/// What probing one candidate endpoint yielded.
#[derive(Debug, Clone, PartialEq)]
pub enum ProbeOutcome {
    /// No channel could be opened to the endpoint.
    Unreachable,
    /// A channel was opened, but the membership call failed.
    Unresponsive,
    /// The membership call succeeded with this response.
    Members(GetMembersResponse),
}

pub open spec fn is_members(p: ProbeOutcome) -> bool {
    match p {
        ProbeOutcome::Members(_) => true,
        _ => false,
    }
}

pub open spec fn members_of(p: ProbeOutcome) -> GetMembersResponse
    recommends
        is_members(p),
{
    match p {
        ProbeOutcome::Members(m) => m,
        _ => arbitrary(),
    }
}

pub open spec fn cid_of(p: ProbeOutcome) -> u64 {
    members_of(p).header.cluster_id
}

pub open spec fn members_pred() -> spec_fn(ProbeOutcome) -> bool {
    |p: ProbeOutcome| is_members(p)
}

pub open spec fn mismatch_pred(expected: u64) -> spec_fn(ProbeOutcome) -> bool {
    |p: ProbeOutcome| is_members(p) && cid_of(p) != expected
}

/// The index of the first successful membership probe; `ps.len()` if none.
pub open spec fn first_members(ps: Seq<ProbeOutcome>) -> int {
    first_where(ps, members_pred())
}

pub open spec fn has_members(ps: Seq<ProbeOutcome>) -> bool {
    first_members(ps) < ps.len()
}

/// The cluster identifier recorded from the first successful probe.
pub open spec fn expected_cid(ps: Seq<ProbeOutcome>) -> u64
    recommends
        has_members(ps),
{
    cid_of(ps[first_members(ps)])
}

/// The index of the first successful probe whose cluster identifier
/// disagrees with the recorded one; `ps.len()` if none.
pub open spec fn first_mismatch(ps: Seq<ProbeOutcome>) -> int {
    first_where(ps, mismatch_pred(expected_cid(ps)))
}

pub open spec fn has_mismatch(ps: Seq<ProbeOutcome>) -> bool {
    has_members(ps) && first_mismatch(ps) < ps.len()
}

/// The endpoint at `j` repeats an earlier endpoint, comparing addresses as
/// character sequences.
pub open spec fn dup_before(eps: Seq<Seq<char>>, j: int) -> bool {
    exists|i: int| 0 <= i < j && eps[i] == eps[j]
}

pub open spec fn has_duplicate(eps: Seq<Seq<char>>) -> bool {
    exists|j: int| 0 <= j < eps.len() && dup_before(eps, j)
}

/// The endpoint set passes the checks made before any network traffic.
pub open spec fn config_ok(eps: Seq<Seq<char>>) -> bool {
    eps.len() > 0 && !has_duplicate(eps)
}

/// The addresses of an endpoint list, as character sequences.
pub open spec fn views_of(eps: Seq<String>) -> Seq<Seq<char>> {
    eps.map_values(|e: String| e@)
}

/// The configuration checks that run before any network I/O: the endpoint
/// set must be non-empty and free of duplicates.
pub fn validate_endpoint_set(endpoints: &Vec<String>) -> (r: Result<(), PdError>)
    ensures
        endpoints@.len() == 0 ==> r matches Err(PdError::EmptyEndpoints),
        config_ok(views_of(endpoints@)) ==> r is Ok,
        endpoints@.len() > 0 && has_duplicate(views_of(endpoints@)) ==> (r matches Err(
            PdError::DuplicateEndpoint(e),
        ) && exists|j: int|
            #![auto]
            0 <= j < endpoints@.len() && dup_before(views_of(endpoints@), j) && (forall|k: int|
                0 <= k < j ==> !dup_before(views_of(endpoints@), k)) && e@ == views_of(
                endpoints@,
            )[j]),
{
    if endpoints.len() == 0 {
        return Err(PdError::EmptyEndpoints);
    }
    let ghost vs = views_of(endpoints@);
    let n = endpoints.len();
    let mut j: usize = 1;
    while j < n
        invariant
            1 <= j <= n,
            vs == views_of(endpoints@),
            vs.len() == n,
            n == endpoints@.len(),
            forall|k: int| 0 <= k < j ==> !dup_before(vs, k),
        decreases n - j,
    {
        let mut i: usize = 0;
        while i < j
            invariant
                0 <= i <= j < n,
                vs == views_of(endpoints@),
                vs.len() == n,
                n == endpoints@.len(),
                forall|k: int| 0 <= k < j ==> !dup_before(vs, k),
                forall|k: int| 0 <= k < i ==> vs[k] != vs[j as int],
            decreases j - i,
        {
            if endpoints[i] == endpoints[j] {
                let dup = endpoints[j].clone();
                assert(dup_before(vs, j as int)) by {
                    assert(vs[i as int] == vs[j as int]);
                }
                assert(exists|jj: int|
                    #![auto]
                    0 <= jj < vs.len() && dup_before(vs, jj) && (forall|k: int|
                        0 <= k < jj ==> !dup_before(vs, k)) && dup@ == vs[jj]) by {
                    assert((j as int) < vs.len() && dup_before(vs, j as int) && (forall|k: int|
                        0 <= k < j as int ==> !dup_before(vs, k)) && dup@ == vs[j as int]);
                }
                return Err(PdError::DuplicateEndpoint(dup));
            }
            assert(vs[i as int] != vs[j as int]);
            i += 1;
        }
        assert(!dup_before(vs, j as int));
        j += 1;
    }
    Ok(())
}

/// The whole discovery decision, over the recorded outcome of probing
/// each endpoint in input order.
///
/// Configuration errors come first, before any outcome is consulted.  Then:
/// the first successful probe fixes the expected cluster identifier; a
/// later successful probe that disagrees fails the whole discovery with a
/// mismatch; otherwise the first successful probe's endpoint index and
/// membership response are retained, and if no probe succeeded the cluster
/// is reported unreachable.
pub fn validate_endpoints(endpoints: &Vec<String>, probes: Vec<ProbeOutcome>) -> (r: Result<
    (usize, GetMembersResponse),
    PdError,
>)
    requires
        probes@.len() == endpoints@.len(),
    ensures
        endpoints@.len() == 0 ==> r matches Err(PdError::EmptyEndpoints),
        endpoints@.len() > 0 && has_duplicate(views_of(endpoints@)) ==> (r matches Err(
            PdError::DuplicateEndpoint(e),
        ) && exists|j: int|
            #![auto]
            0 <= j < endpoints@.len() && dup_before(views_of(endpoints@), j) && (forall|k: int|
                0 <= k < j ==> !dup_before(views_of(endpoints@), k)) && e@ == views_of(
                endpoints@,
            )[j]),
        config_ok(views_of(endpoints@)) && has_mismatch(probes@) ==> (r matches Err(
            PdError::ClusterIdMismatch { expected, got },
        ) && expected == expected_cid(probes@) && got == cid_of(
            probes@[first_mismatch(probes@)],
        )),
        config_ok(views_of(endpoints@)) && !has_mismatch(probes@) && has_members(probes@) ==> (r
            matches Ok(p) && p.0 as int == first_members(probes@) && p.1 == members_of(
            probes@[first_members(probes@)],
        )),
        config_ok(views_of(endpoints@)) && !has_members(probes@) ==> r matches Err(
            PdError::NoEndpointReachable,
        ),
{
    match validate_endpoint_set(endpoints) {
        Err(e) => {
            return Err(e);
        },
        Ok(()) => {},
    }
    let ghost ps = probes@;
    let n = endpoints.len();
    let mut rest = probes;
    let mut j: usize = 0;
    let mut expected: Option<u64> = None;
    let mut found: Option<(usize, GetMembersResponse)> = None;
    proof {
        lemma_first_where(ps, members_pred());
    }
    while j < n
        invariant
            0 <= j <= n,
            ps == probes@,
            ps.len() == n,
            n == endpoints@.len(),
            config_ok(views_of(endpoints@)),
            rest@ == ps.skip(j as int),
            j <= first_members(ps) ==> expected is None && found is None,
            first_members(ps) < j ==> (expected == Some(expected_cid(ps)) && (found matches Some(f)
                && f.0 as int == first_members(ps) && f.1 == members_of(ps[first_members(ps)]))),
            forall|k: int|
                0 <= k < j ==> !(is_members(ps[k]) && cid_of(ps[k]) != expected_cid(ps)),
        decreases n - j,
    {
        proof {
            lemma_first_where(ps, members_pred());
            assert(rest@[0] == ps.skip(j as int)[0]);
            assert(ps.skip(j as int)[0] == ps[j as int]);
        }
        let p = rest.remove(0);
        proof {
            assert(ps.skip(j as int).remove(0) =~= ps.skip(j as int + 1));
        }
        match p {
            ProbeOutcome::Unreachable => {
                proof {
                    assert(!is_members(ps[j as int]));
                    assert(first_members(ps) != j as int);
                }
            },
            ProbeOutcome::Unresponsive => {
                proof {
                    assert(!is_members(ps[j as int]));
                    assert(first_members(ps) != j as int);
                }
            },
            ProbeOutcome::Members(m) => {
                let cid = m.header.cluster_id;
                assert(is_members(ps[j as int]) && cid == cid_of(ps[j as int]));
                match expected {
                    None => {
                        proof {
                            lemma_first_where_is(ps, members_pred(), j as int);
                        }
                        expected = Some(cid);
                        found = Some((j, m));
                    },
                    Some(sample) => {
                        assert(first_members(ps) < j as int);
                        assert(sample == expected_cid(ps));
                        if sample != cid {
                            proof {
                                lemma_first_where_is(
                                    ps,
                                    mismatch_pred(expected_cid(ps)),
                                    j as int,
                                );
                            }
                            return Err(PdError::ClusterIdMismatch { expected: sample, got: cid });
                        }
                    },
                }
            },
        }
        j += 1;
    }
    proof {
        lemma_first_where(ps, members_pred());
        if first_members(ps) < n {
            lemma_first_where_is(ps, mismatch_pred(expected_cid(ps)), n as int);
        }
    }
    match found {
        Some(f) => Ok(f),
        None => Err(PdError::NoEndpointReachable),
    }
}

/// If at least one probe succeeded and every successful probe reported the
/// same cluster identifier `cid`, discovery sees a first member and no
/// mismatch, and records exactly `cid`.  With [`validate_endpoints`]'s
/// contract: construction over such probes always succeeds, and the
/// retained membership is the first successful response.
pub proof fn lemma_consistent_probes_accepted(ps: Seq<ProbeOutcome>, w: int, cid: u64)
    requires
        0 <= w < ps.len(),
        is_members(ps[w]),
        forall|i: int| 0 <= i < ps.len() && is_members(#[trigger] ps[i]) ==> cid_of(ps[i]) == cid,
    ensures
        has_members(ps),
        !has_mismatch(ps),
        expected_cid(ps) == cid,
{
    lemma_first_where(ps, members_pred());
    if first_members(ps) >= ps.len() {
        assert(!is_members(ps[w]));
    }
    assert(is_members(ps[first_members(ps)]));
    lemma_first_where_is(ps, mismatch_pred(expected_cid(ps)), ps.len() as int);
}

/// If two probes both succeeded but reported different cluster
/// identifiers, discovery sees a mismatch.  With [`validate_endpoints`]'s
/// contract: construction over such probes always fails with a
/// cluster-identifier mismatch, and no membership is returned.
pub proof fn lemma_conflicting_probes_rejected(ps: Seq<ProbeOutcome>, i: int, j: int)
    requires
        0 <= i < ps.len(),
        0 <= j < ps.len(),
        is_members(ps[i]),
        is_members(ps[j]),
        cid_of(ps[i]) != cid_of(ps[j]),
    ensures
        has_members(ps),
        has_mismatch(ps),
{
    lemma_first_where(ps, members_pred());
    if first_members(ps) >= ps.len() {
        assert(!is_members(ps[i]));
    }
    let e = expected_cid(ps);
    let w: int = if cid_of(ps[i]) != e {
        i
    } else {
        j
    };
    assert(is_members(ps[w]) && cid_of(ps[w]) != e);
    lemma_first_where(ps, mismatch_pred(e));
    if first_mismatch(ps) >= ps.len() {
        assert(!(mismatch_pred(e)(ps[w])));
    }
}

} // verus!
