//! Construction: endpoint parsing, configuration checks, and discovery.

use pd_client::client::RpcClient;
use pd_client::discovery::{validate_endpoint_set, validate_endpoints, ProbeOutcome};
use pd_client::endpoints::{parse_endpoints, split_host_port, trim_str};
use pd_client::errors::PdError;
use pd_client::messages::{GetMembersResponse, Member, ResponseHeader};

fn members_response(cluster_id: u64, name: &str, peer_urls: &[&str]) -> GetMembersResponse {
    GetMembersResponse {
        header: ResponseHeader { cluster_id, error: None },
        members: vec![Member {
            id: 1,
            name: name.to_string(),
            peer_urls: peer_urls.iter().map(|u| u.to_string()).collect(),
            client_urls: Vec::new(),
        }],
    }
}

#[test]
fn parse_splits_trims_and_drops_empties() {
    let eps = parse_endpoints(" 10.0.0.1:2379 ,10.0.0.2:2379,, \t ");
    assert_eq!(
        eps,
        vec!["10.0.0.1:2379".to_string(), "10.0.0.2:2379".to_string()]
    );
}

#[test]
fn parse_of_empty_string_is_empty() {
    assert_eq!(parse_endpoints(""), Vec::<String>::new());
    assert_eq!(parse_endpoints(" , ,\t"), Vec::<String>::new());
}

#[test]
fn trim_removes_surrounding_whitespace_only() {
    assert_eq!(trim_str("  a b\t\r\n"), "a b");
    assert_eq!(trim_str("abc"), "abc");
    assert_eq!(trim_str("   "), "");
}

#[test]
fn addresses_split_into_host_and_port() {
    assert_eq!(
        split_host_port("10.0.0.1:2379"),
        Some(("10.0.0.1".to_string(), 2379))
    );
    // only the first two colon-separated fields matter
    assert_eq!(split_host_port("a:1:2"), Some(("a".to_string(), 1)));
    assert_eq!(split_host_port("no-port"), None);
    assert_eq!(split_host_port("h:"), None);
    assert_eq!(split_host_port("h:12x"), None);
    assert_eq!(split_host_port("h:99999"), None);
    assert_eq!(split_host_port("h:65535"), Some(("h".to_string(), 65535)));
}

#[test]
fn empty_endpoint_list_fails_before_any_probe() {
    match RpcClient::new("", Vec::new()) {
        Err(PdError::EmptyEndpoints) => {}
        r => panic!("expected EmptyEndpoints, got {:?}", r),
    }
}

#[test]
fn duplicate_endpoint_fails_before_any_probe() {
    match RpcClient::new("10.0.0.1:2379,10.0.0.1:2379", Vec::new()) {
        Err(PdError::DuplicateEndpoint(e)) => assert_eq!(e, "10.0.0.1:2379"),
        r => panic!("expected DuplicateEndpoint, got {:?}", r),
    }
}

#[test]
fn duplicate_after_trimming_is_still_a_duplicate() {
    let eps = parse_endpoints("a:1 , a:1");
    match validate_endpoint_set(&eps) {
        Err(PdError::DuplicateEndpoint(e)) => assert_eq!(e, "a:1"),
        r => panic!("expected DuplicateEndpoint, got {:?}", r),
    }
}

#[test]
fn unique_endpoints_pass_the_configuration_check() {
    let eps = parse_endpoints("a:1,b:2,c:3");
    assert_eq!(validate_endpoint_set(&eps), Ok(()));
}

#[test]
fn consistent_probes_record_the_identifier() {
    let first = members_response(7, "m1", &["10.0.0.1:2380"]);
    let second = members_response(7, "m2", &["10.0.0.2:2380"]);
    let client = RpcClient::new(
        "10.0.0.1:2379, 10.0.0.2:2379",
        vec![
            ProbeOutcome::Members(first.clone()),
            ProbeOutcome::Members(second),
        ],
    )
    .expect("construction should succeed");
    assert_eq!(client.get_cluster_id(), Ok(7));
    // the first successful response is the one retained
    assert_eq!(client.members, first);
}

#[test]
fn conflicting_identifiers_fail_construction() {
    let r = RpcClient::new(
        "10.0.0.1:2379,10.0.0.2:2379",
        vec![
            ProbeOutcome::Members(members_response(1, "m1", &["u1"])),
            ProbeOutcome::Members(members_response(2, "m2", &["u2"])),
        ],
    );
    match r {
        Err(PdError::ClusterIdMismatch { expected: 1, got: 2 }) => {}
        r => panic!("expected ClusterIdMismatch, got {:?}", r),
    }
}

#[test]
fn mismatch_is_judged_against_the_first_successful_probe() {
    let r = RpcClient::new(
        "a:1,b:2,c:3",
        vec![
            ProbeOutcome::Unreachable,
            ProbeOutcome::Members(members_response(5, "m2", &["u2"])),
            ProbeOutcome::Members(members_response(9, "m3", &["u3"])),
        ],
    );
    match r {
        Err(PdError::ClusterIdMismatch { expected: 5, got: 9 }) => {}
        r => panic!("expected ClusterIdMismatch, got {:?}", r),
    }
}

#[test]
fn one_reachable_endpoint_suffices() {
    let m = members_response(7, "m2", &["10.0.0.2:2380"]);
    let client = RpcClient::new(
        "10.0.0.1:2379,10.0.0.2:2379",
        vec![ProbeOutcome::Unreachable, ProbeOutcome::Members(m.clone())],
    )
    .expect("construction should succeed");
    assert_eq!(client.get_cluster_id(), Ok(7));

    let eps = parse_endpoints("10.0.0.1:2379,10.0.0.2:2379");
    let (idx, got) = validate_endpoints(
        &eps,
        vec![ProbeOutcome::Unreachable, ProbeOutcome::Members(m.clone())],
    )
    .expect("discovery should succeed");
    assert_eq!(idx, 1);
    assert_eq!(got, m);
}

#[test]
fn unresponsive_endpoint_is_skipped_not_fatal() {
    let m = members_response(9, "m2", &["u"]);
    let client = RpcClient::new(
        "a:1,b:2",
        vec![ProbeOutcome::Unresponsive, ProbeOutcome::Members(m)],
    )
    .expect("construction should succeed");
    assert_eq!(client.get_cluster_id(), Ok(9));
}

#[test]
fn no_reachable_endpoint_fails_discovery() {
    let r = RpcClient::new(
        "a:1,b:2",
        vec![ProbeOutcome::Unreachable, ProbeOutcome::Unresponsive],
    );
    match r {
        Err(PdError::NoEndpointReachable) => {}
        r => panic!("expected NoEndpointReachable, got {:?}", r),
    }
}
