//! The bounded retry executor and the failover selector.

use pd_client::errors::PdError;
use pd_client::executor::{do_request, AttemptOutcome, Directive, RetryState, MAX_RETRY_COUNT};
use pd_client::failover::{failover_candidates, failover_order, failover_plan, try_connect};
use pd_client::messages::{GetMembersResponse, Member, ResponseHeader};

fn member(id: u64, peer_urls: &[&str]) -> Member {
    Member {
        id,
        name: format!("m{}", id),
        peer_urls: peer_urls.iter().map(|u| u.to_string()).collect(),
        client_urls: Vec::new(),
    }
}

fn snapshot(cluster_id: u64, members: Vec<Member>) -> GetMembersResponse {
    GetMembersResponse {
        header: ResponseHeader { cluster_id, error: None },
        members,
    }
}

#[test]
fn transient_failures_are_hidden_from_the_caller() {
    // the transport fails twice (once reconnecting, once not), then the
    // third attempt succeeds: the caller sees only the final payload
    let r = do_request(vec![
        AttemptOutcome::FailedReconnected,
        AttemptOutcome::FailedNoReconnect,
        AttemptOutcome::Success(99u64),
    ]);
    assert_eq!(r.result, Ok(99));
    assert_eq!(r.attempts, 3);
    assert_eq!(r.pauses, 1);
}

#[test]
fn first_success_within_budget_wins() {
    let r = do_request(vec![
        AttemptOutcome::FailedReconnected,
        AttemptOutcome::Success(5u32),
        AttemptOutcome::Success(6u32),
    ]);
    assert_eq!(r.result, Ok(5));
    assert_eq!(r.attempts, 2);
    assert_eq!(r.pauses, 0);
}

#[test]
fn immediate_success_takes_one_attempt() {
    let r = do_request(vec![AttemptOutcome::Success("payload")]);
    assert_eq!(r.result, Ok("payload"));
    assert_eq!(r.attempts, 1);
    assert_eq!(r.pauses, 0);
}

#[test]
fn full_exhaustion_consumes_the_budget_and_paces_every_attempt() {
    // every member unreachable on every attempt: the call fails only after
    // the whole budget, with one fixed pause per attempt — driven in real
    // time that is at least MAX_RETRY_COUNT seconds of pacing
    let outcomes = vec![AttemptOutcome::<u8>::FailedNoReconnect; MAX_RETRY_COUNT];
    let r = do_request(outcomes);
    assert_eq!(r.result, Err(PdError::RetryExhausted));
    assert_eq!(r.attempts, MAX_RETRY_COUNT);
    assert_eq!(r.pauses, MAX_RETRY_COUNT);
}

#[test]
fn success_on_the_last_attempt_of_the_budget_is_observed() {
    let mut outcomes = vec![AttemptOutcome::<u8>::FailedReconnected; MAX_RETRY_COUNT - 1];
    outcomes.push(AttemptOutcome::Success(8));
    let r = do_request(outcomes);
    assert_eq!(r.result, Ok(8));
    assert_eq!(r.attempts, MAX_RETRY_COUNT);
}

#[test]
fn success_after_budget_is_not_observed() {
    let mut outcomes = vec![AttemptOutcome::<u8>::FailedReconnected; MAX_RETRY_COUNT];
    outcomes.push(AttemptOutcome::Success(1));
    let r = do_request(outcomes);
    assert_eq!(r.result, Err(PdError::RetryExhausted));
    assert_eq!(r.attempts, MAX_RETRY_COUNT);
    assert_eq!(r.pauses, 0);
}

#[test]
fn step_directives_follow_the_outcomes() {
    let mut st = RetryState::new();
    assert_eq!(
        st.step::<u8>(AttemptOutcome::FailedReconnected),
        Directive::Continue { pause: false }
    );
    assert_eq!(
        st.step::<u8>(AttemptOutcome::FailedNoReconnect),
        Directive::Continue { pause: true }
    );
    assert_eq!(st.step(AttemptOutcome::Success(3u8)), Directive::Done(3));
    assert_eq!(st.attempts, 3);
    assert_eq!(st.pauses, 1);
}

#[test]
fn the_last_attempt_of_the_budget_exhausts() {
    let mut st = RetryState::new();
    for _ in 0..(MAX_RETRY_COUNT - 1) {
        match st.step::<u8>(AttemptOutcome::FailedReconnected) {
            Directive::Continue { pause: false } => {}
            d => panic!("expected Continue, got {:?}", d),
        }
    }
    assert_eq!(
        st.step::<u8>(AttemptOutcome::FailedNoReconnect),
        Directive::Exhausted { pause: true }
    );
    assert_eq!(st.attempts, MAX_RETRY_COUNT);
}

#[test]
fn failover_order_is_a_permutation() {
    let mut order = failover_order(5);
    order.sort();
    assert_eq!(order, vec![0, 1, 2, 3, 4]);
    assert_eq!(failover_order(0), Vec::<usize>::new());
    assert_eq!(failover_order(1), vec![0]);
}

#[test]
fn candidates_follow_member_order_and_listed_url_order() {
    let members = vec![member(1, &["a:1", "a:2"]), member(2, &["b:1"])];
    let cands = failover_candidates(&members, &vec![1, 0]);
    assert_eq!(cands, vec!["b:1", "a:1", "a:2"]);
    let cands = failover_candidates(&members, &vec![0, 1]);
    assert_eq!(cands, vec!["a:1", "a:2", "b:1"]);
}

#[test]
fn plan_keeps_every_address_and_member_grouping() {
    let members = vec![member(1, &["a:1", "a:2"]), member(2, &["b:1"])];
    let plan = failover_plan(&members);
    let expected_one_way = vec!["a:1", "a:2", "b:1"];
    let expected_other_way = vec!["b:1", "a:1", "a:2"];
    assert!(
        plan == expected_one_way || plan == expected_other_way,
        "unexpected plan {:?}",
        plan
    );
}

#[test]
fn first_reachable_candidate_is_selected() {
    let members = vec![member(1, &["a:1"]), member(2, &["b:1", "b:2"])];
    let snap = snapshot(7, members.clone());
    let cands = failover_candidates(&members, &vec![0, 1]);
    let r = try_connect(snap, &cands, &vec![false, true, true]);
    assert_eq!(r, Ok(1));
}

#[test]
fn exhausted_failover_reports_the_snapshot() {
    let members = vec![member(1, &["a:1"])];
    let snap = snapshot(7, members.clone());
    let cands = failover_candidates(&members, &vec![0]);
    match try_connect(snap.clone(), &cands, &vec![false]) {
        Err(PdError::FailoverExhausted(m)) => assert_eq!(m, snap),
        r => panic!("expected FailoverExhausted, got {:?}", r),
    }
}
