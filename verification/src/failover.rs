//! Selecting a replacement connection from the membership snapshot.
//!
//! The member order is shuffled uniformly at random — reconnection load is
//! spread over the replicas instead of herding on the first-listed one —
//! and then every advertised address of each member is a candidate, in the
//! member's listed order.  Opening channels is transport work done outside
//! this crate; which candidate is selected, given which ones turned out
//! reachable, is decided and verified here.

use vstd::prelude::*;
use rand::seq::SliceRandom;
use crate::errors::PdError;
use crate::messages::{GetMembersResponse, Member};
use crate::search::{first_where, lemma_first_where_is};

verus! {

/// `s` lists each index below `n` exactly once.
pub open spec fn is_index_permutation(s: Seq<usize>, n: int) -> bool {
    &&& s.len() == n
    &&& forall|i: int| 0 <= i < s.len() ==> (#[trigger] s[i]) < n
    &&& s.no_duplicates()
}

/// Relies on rand's `SliceRandom::shuffle` (a Fisher–Yates shuffle): it
/// permutes the slice in place by swaps, so the length and the multiset of
/// elements are unchanged.  Which permutation comes out is random and
/// nothing is claimed about it.
#[verifier::external_body]
fn shuffle(v: &mut Vec<usize>)
    ensures
        final(v)@.len() == old(v)@.len(),
        final(v)@.to_multiset() == old(v)@.to_multiset(),
{
    v.shuffle(&mut rand::thread_rng());
}

/// A uniformly random order over `n` member indices: the identity sequence
/// handed to the shuffle.  Every index below `n` appears exactly once.
pub fn failover_order(n: usize) -> (r: Vec<usize>)
    ensures
        is_index_permutation(r@, n as int),
{
    let mut v: Vec<usize> = Vec::new();
    let mut i: usize = 0;
    while i < n
        invariant
            0 <= i <= n,
            v@.len() == i,
            forall|k: int| 0 <= k < i ==> (#[trigger] v@[k]) == k,
        decreases n - i,
    {
        v.push(i);
        i = i + 1;
    }
    let ghost before = v@;
    shuffle(&mut v);
    proof {
        broadcast use vstd::seq_lib::group_to_multiset_ensures;

        assert(before.no_duplicates());
        before.lemma_multiset_has_no_duplicates();
        assert forall|x: usize| v@.to_multiset().contains(x) implies v@.to_multiset().count(x)
            == 1 by {
            assert(before.to_multiset().contains(x) && before.to_multiset().count(x) == 1);
        }
        v@.lemma_multiset_has_no_duplicates_conv();
        assert forall|k: int| 0 <= k < v@.len() implies (#[trigger] v@[k]) < n by {
            assert(v@.to_multiset().contains(v@[k]));
            assert(before.to_multiset().contains(v@[k]));
            assert(before.contains(v@[k]));
        }
    }
    v
}

/// The addresses a reconnection pass will try, in order: the members in
/// the order given, and within one member its advertised addresses in
/// listed order.
pub open spec fn urls_in_order(members: Seq<Member>, order: Seq<usize>) -> Seq<String>
    decreases order.len(),
{
    if order.len() == 0 {
        Seq::empty()
    } else {
        members[order[0] as int].peer_urls@ + urls_in_order(members, order.drop_first())
    }
}

proof fn lemma_urls_in_order_push(members: Seq<Member>, order: Seq<usize>, x: usize)
    requires
        (x as int) < members.len(),
    ensures
        urls_in_order(members, order.push(x)) == urls_in_order(members, order)
            + members[x as int].peer_urls@,
    decreases order.len(),
{
    if order.len() == 0 {
        assert(order.push(x).drop_first() =~= order);
        assert(urls_in_order(members, order.push(x)) =~= urls_in_order(members, order)
            + members[x as int].peer_urls@);
    } else {
        assert(order.push(x).drop_first() =~= order.drop_first().push(x));
        lemma_urls_in_order_push(members, order.drop_first(), x);
        assert(urls_in_order(members, order.push(x)) =~= urls_in_order(members, order)
            + members[x as int].peer_urls@);
    }
}

/// Flatten the members' addresses into one candidate list following
/// `order`, most often the shuffled order from [`failover_order`].
pub fn failover_candidates(members: &Vec<Member>, order: &Vec<usize>) -> (r: Vec<String>)
    requires
        is_index_permutation(order@, members@.len() as int),
    ensures
        r@ == urls_in_order(members@, order@),
{
    let mut cands: Vec<String> = Vec::new();
    let n = order.len();
    let mut k: usize = 0;
    while k < n
        invariant
            0 <= k <= n,
            n == order@.len(),
            is_index_permutation(order@, members@.len() as int),
            cands@ == urls_in_order(members@, order@.take(k as int)),
        decreases n - k,
    {
        let mi = order[k];
        let m = &members[mi];
        let u_n = m.peer_urls.len();
        let mut u: usize = 0;
        while u < u_n
            invariant
                0 <= u <= u_n,
                k < n,
                n == order@.len(),
                is_index_permutation(order@, members@.len() as int),
                mi == order@[k as int],
                (mi as int) < members@.len(),
                m == members@[mi as int],
                u_n == m.peer_urls@.len(),
                cands@ == urls_in_order(members@, order@.take(k as int))
                    + m.peer_urls@.take(u as int),
            decreases u_n - u,
        {
            cands.push(m.peer_urls[u].clone());
            proof {
                assert(m.peer_urls@.take(u as int).push(m.peer_urls@[u as int]) =~= m.peer_urls@
                    .take(u as int + 1));
            }
            u = u + 1;
        }
        proof {
            assert(m.peer_urls@.take(u_n as int) =~= m.peer_urls@);
            assert(order@.take(k as int).push(order@[k as int]) =~= order@.take(k as int + 1));
            lemma_urls_in_order_push(members@, order@.take(k as int), mi);
        }
        k = k + 1;
    }
    proof {
        assert(order@.take(n as int) =~= order@);
    }
    cands
}

/// The whole candidate plan of one reconnection pass: the members in a
/// fresh uniformly random order, each member's advertised addresses in
/// listed order.
pub fn failover_plan(members: &Vec<Member>) -> (r: Vec<String>)
    ensures
        exists|ord: Seq<usize>|
            is_index_permutation(ord, members@.len() as int) && r@ == urls_in_order(
                members@,
                ord,
            ),
{
    let order = failover_order(members.len());
    let r = failover_candidates(members, &order);
    proof {
        assert(is_index_permutation(order@, members@.len() as int) && r@ == urls_in_order(
            members@,
            order@,
        ));
    }
    r
}

pub open spec fn reachable_pred() -> spec_fn(bool) -> bool {
    |b: bool| b
}

/// The reconnection decision: given which candidate addresses turned out
/// reachable, the first reachable one is selected; if none is, the pass
/// fails with the membership snapshot it was trying, for diagnostics.
///
/// `reachable[i]` records whether opening a channel to `candidates[i]`
/// succeeded.
pub fn try_connect(members: GetMembersResponse, candidates: &Vec<String>, reachable: &Vec<
    bool,
>) -> (r: Result<usize, PdError>)
    requires
        reachable@.len() == candidates@.len(),
    ensures
        first_where(reachable@, reachable_pred()) < reachable@.len() ==> (r matches Ok(i) && i
            as int == first_where(reachable@, reachable_pred()) && (i as int)
            < candidates@.len()),
        first_where(reachable@, reachable_pred()) == reachable@.len() ==> (r matches Err(
            PdError::FailoverExhausted(m),
        ) && m == members),
{
    let n = reachable.len();
    let mut i: usize = 0;
    while i < n
        invariant
            0 <= i <= n,
            n == reachable@.len(),
            n == candidates@.len(),
            forall|k: int| 0 <= k < i ==> !(#[trigger] reachable@[k]),
        decreases n - i,
    {
        if reachable[i] {
            proof {
                lemma_first_where_is(reachable@, reachable_pred(), i as int);
            }
            return Ok(i);
        }
        i = i + 1;
    }
    proof {
        lemma_first_where_is(reachable@, reachable_pred(), n as int);
    }
    Err(PdError::FailoverExhausted(members))
}

} // verus!
