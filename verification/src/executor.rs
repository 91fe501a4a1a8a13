//! The resilient request executor: a bounded retry loop around one logical
//! remote call.
//!
//! Issuing the call and reconnecting are transport work done outside this
//! crate; each round of "invoke the operation, and on failure try to
//! reconnect" is reported back as an [`AttemptOutcome`].  The executor's
//! decisions — when to retry, when to pause, when to give up, and what the
//! caller finally observes — are verified here.  The embedding program
//! drives [`RetryState::step`] one attempt at a time and performs the pause
//! (a one-second sleep) whenever the directive asks for it;
//! [`do_request`] runs the same machine over a whole recorded sequence of
//! attempt outcomes.

use vstd::prelude::*;
use vstd::pervasive::unreached;
use crate::errors::PdError;
use crate::search::{first_where, lemma_first_where, lemma_first_where_is};

verus! {

/// The bounded number of attempts one logical call may consume.
pub const MAX_RETRY_COUNT: usize = 100;

/// What one attempt of the retried operation yielded.
#[derive(Debug, Clone, PartialEq)]
pub enum AttemptOutcome<R> {
    /// The remote call returned a response.
    Success(R),
    /// The call failed at the transport level, and the reconnection that
    /// followed installed a fresh connection.
    FailedReconnected,
    /// The call failed, and the reconnection pass found no reachable
    /// member either.
    FailedNoReconnect,
}

/// What the executor does after one attempt.
#[derive(Debug, Clone, PartialEq)]
pub enum Directive<R> {
    /// Hand the response to the caller; no further attempt is made.
    Done(R),
    /// Run the operation again; `pause` asks the driver to wait the fixed
    /// interval first, so a fully unreachable cluster is not hot-spun.
    Continue { pause: bool },
    /// The attempt budget is consumed; fail the call.  `pause` still asks
    /// for the final wait when the last reconnection failed.
    Exhausted { pause: bool },
}

pub open spec fn is_success<R>(o: AttemptOutcome<R>) -> bool {
    match o {
        AttemptOutcome::Success(_) => true,
        _ => false,
    }
}

pub open spec fn success_of<R>(o: AttemptOutcome<R>) -> R
    recommends
        is_success(o),
{
    match o {
        AttemptOutcome::Success(r) => r,
        _ => arbitrary(),
    }
}

pub open spec fn is_no_reconnect<R>(o: AttemptOutcome<R>) -> bool {
    match o {
        AttemptOutcome::FailedNoReconnect => true,
        _ => false,
    }
}

pub open spec fn success_pred<R>() -> spec_fn(AttemptOutcome<R>) -> bool {
    |o: AttemptOutcome<R>| is_success(o)
}

/// The attempt index of the first success; `os.len()` if every attempt
/// fails.
pub open spec fn first_success<R>(os: Seq<AttemptOutcome<R>>) -> int {
    first_where(os, success_pred())
}

/// How many of the first `n` attempts end in a failed reconnection — each
/// of those costs the driver one fixed pause.
pub open spec fn pauses_among<R>(os: Seq<AttemptOutcome<R>>, n: int) -> int
    decreases n,
{
    if n <= 0 {
        0
    } else {
        pauses_among(os, n - 1) + if is_no_reconnect(os[n - 1]) {
            1int
        } else {
            0int
        }
    }
}

/// The executor's attempt counters: how many attempts have run and how
/// many of them asked for a pause.
pub struct RetryState {
    pub attempts: usize,
    pub pauses: usize,
}

impl RetryState {
    pub fn new() -> (s: RetryState)
        ensures
            s.attempts == 0,
            s.pauses == 0,
    {
        RetryState { attempts: 0, pauses: 0 }
    }

    /// Consume one attempt's outcome and decide what happens next: a
    /// success is returned at once, a failure is retried — with a pause
    /// when reconnection also failed — until the fixed budget is spent.
    pub fn step<R>(&mut self, outcome: AttemptOutcome<R>) -> (d: Directive<R>)
        requires
            old(self).attempts < MAX_RETRY_COUNT,
            old(self).pauses <= old(self).attempts,
        ensures
            final(self).attempts == old(self).attempts + 1,
            final(self).pauses == old(self).pauses + if is_no_reconnect(outcome) {
                1int
            } else {
                0int
            },
            is_success(outcome) ==> (d matches Directive::Done(r) && r == success_of(outcome)),
            !is_success(outcome) && final(self).attempts < MAX_RETRY_COUNT ==> (d matches
                Directive::Continue { pause } && pause == is_no_reconnect(outcome)),
            !is_success(outcome) && final(self).attempts == MAX_RETRY_COUNT ==> (d matches
                Directive::Exhausted { pause } && pause == is_no_reconnect(outcome)),
    {
        self.attempts = self.attempts + 1;
        match outcome {
            AttemptOutcome::Success(r) => Directive::Done(r),
            AttemptOutcome::FailedReconnected => {
                if self.attempts < MAX_RETRY_COUNT {
                    Directive::Continue { pause: false }
                } else {
                    Directive::Exhausted { pause: false }
                }
            },
            AttemptOutcome::FailedNoReconnect => {
                self.pauses = self.pauses + 1;
                if self.attempts < MAX_RETRY_COUNT {
                    Directive::Continue { pause: true }
                } else {
                    Directive::Exhausted { pause: true }
                }
            },
        }
    }
}

/// What one whole retried call came to: the caller-visible result, the
/// attempts consumed, and the pauses the driver was asked to take.
pub struct ExecReport<R> {
    pub result: Result<R, PdError>,
    pub attempts: usize,
    pub pauses: usize,
}

/// The whole retry loop of one logical call, over the recorded outcome of
/// each attempt: the first success within the budget is returned to the
/// caller and ends the loop; otherwise the budget is consumed and the call
/// fails with retry exhaustion.
///
/// `outcomes` must describe every attempt the loop could run: either some
/// attempt succeeds, or at least the whole budget is described.
pub fn do_request<R>(outcomes: Vec<AttemptOutcome<R>>) -> (r: ExecReport<R>)
    requires
        first_success(outcomes@) < outcomes@.len() || outcomes@.len() >= MAX_RETRY_COUNT,
    ensures
        first_success(outcomes@) < outcomes@.len() && first_success(outcomes@) < MAX_RETRY_COUNT
            ==> (r.result matches Ok(v) && v == success_of(outcomes@[first_success(outcomes@)])
            && r.attempts == first_success(outcomes@) + 1 && r.pauses == pauses_among(
            outcomes@,
            first_success(outcomes@),
        )),
        !(first_success(outcomes@) < outcomes@.len() && first_success(outcomes@)
            < MAX_RETRY_COUNT) ==> (r.result matches Err(PdError::RetryExhausted) && r.attempts
            == MAX_RETRY_COUNT && r.pauses == pauses_among(outcomes@, MAX_RETRY_COUNT as int)),
{
    let ghost os = outcomes@;
    let n = outcomes.len();
    let mut rest = outcomes;
    let mut st = RetryState::new();
    let mut idx: usize = 0;
    proof {
        lemma_first_where(os, success_pred::<R>());
    }
    while idx < MAX_RETRY_COUNT
        invariant
            os == outcomes@,
            n == os.len(),
            first_success(os) < n || n >= MAX_RETRY_COUNT,
            0 <= idx < MAX_RETRY_COUNT,
            rest@ == os.skip(idx as int),
            st.attempts == idx,
            st.pauses <= st.attempts,
            st.pauses == pauses_among(os, idx as int),
            forall|k: int| 0 <= k < idx ==> !is_success(os[k]),
        decreases MAX_RETRY_COUNT - idx,
    {
        proof {
            lemma_first_where(os, success_pred::<R>());
            assert(idx < n);
            assert(rest@[0] == os[idx as int]);
        }
        let outcome = rest.remove(0);
        proof {
            assert(os.skip(idx as int).remove(0) =~= os.skip(idx as int + 1));
        }
        let d = st.step(outcome);
        match d {
            Directive::Done(v) => {
                proof {
                    lemma_first_where_is(os, success_pred::<R>(), idx as int);
                }
                return ExecReport { result: Ok(v), attempts: st.attempts, pauses: st.pauses };
            },
            Directive::Continue { pause: _ } => {
                idx = idx + 1;
            },
            Directive::Exhausted { pause: _ } => {
                proof {
                    assert(forall|k: int|
                        0 <= k < MAX_RETRY_COUNT ==> !is_success(os[k]));
                    if first_success(os) < n && first_success(os) < MAX_RETRY_COUNT {
                        assert(is_success(os[first_success(os)]));
                    }
                }
                return ExecReport {
                    result: Err(PdError::RetryExhausted),
                    attempts: st.attempts,
                    pauses: st.pauses,
                };
            },
        }
    }
    unreached()
}

/// Failover liveness: if some attempt within the budget succeeds — say the
/// current connection is permanently dead but a reconnection reaches
/// another live member, after which the retried call goes through — then
/// there is a first success inside the budget.  With [`do_request`]'s
/// contract: the caller observes `Ok` of that first success's payload, and
/// never an intermediate failure.
pub proof fn lemma_retry_liveness<R>(os: Seq<AttemptOutcome<R>>, i: int)
    requires
        0 <= i < os.len(),
        i < MAX_RETRY_COUNT,
        is_success(os[i]),
    ensures
        0 <= first_success(os) <= i,
        is_success(os[first_success(os)]),
{
    lemma_first_where(os, success_pred::<R>());
    if first_success(os) > i {
        assert(!is_success(os[i]));
    }
}

proof fn lemma_all_pauses<R>(os: Seq<AttemptOutcome<R>>, n: int)
    requires
        0 <= n <= os.len(),
        forall|k: int| 0 <= k < n ==> is_no_reconnect(#[trigger] os[k]),
    ensures
        pauses_among(os, n) == n,
    decreases n,
{
    if n > 0 {
        lemma_all_pauses(os, n - 1);
    }
}

/// Failover exhaustion: if every attempt fails and no reconnection ever
/// finds a reachable member, the whole budget is consumed and every
/// attempt costs the driver one fixed pause.  With [`do_request`]'s
/// contract: the call fails with retry exhaustion after `MAX_RETRY_COUNT`
/// attempts and as many pauses.
pub proof fn lemma_retry_exhaustion<R>(os: Seq<AttemptOutcome<R>>)
    requires
        os.len() >= MAX_RETRY_COUNT,
        forall|k: int| 0 <= k < MAX_RETRY_COUNT ==> is_no_reconnect(#[trigger] os[k]),
    ensures
        first_success(os) >= MAX_RETRY_COUNT,
        pauses_among(os, MAX_RETRY_COUNT as int) == MAX_RETRY_COUNT,
{
    lemma_first_where(os, success_pred::<R>());
    if first_success(os) < MAX_RETRY_COUNT {
        assert(is_success(os[first_success(os)]));
        assert(is_no_reconnect(os[first_success(os)]));
    }
    lemma_all_pauses(os, MAX_RETRY_COUNT as int);
}

} // verus!
