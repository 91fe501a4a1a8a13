//! The client façade: request stamping, header validation, and payload
//! extraction.

use pd_client::client::{
    alloc_id_response, bootstrap_cluster_response, check_resp_header, get_region_by_id_response,
    get_region_response, get_store_response, is_cluster_bootstrapped_response,
    region_heartbeat_response, RpcClient,
};
use pd_client::discovery::ProbeOutcome;
use pd_client::errors::PdError;
use pd_client::messages::{
    AllocIdResponse, BootstrapResponse, GetMembersResponse, GetRegionByIdResponse,
    GetRegionResponse, GetStoreResponse, IsBootstrappedResponse, Member, Peer, Region,
    RegionHeartbeatResponse, ResponseError, ResponseHeader, Store,
};

fn clean_header(cluster_id: u64) -> ResponseHeader {
    ResponseHeader { cluster_id, error: None }
}

fn error_header(cluster_id: u64, message: &str) -> ResponseHeader {
    ResponseHeader {
        cluster_id,
        error: Some(ResponseError { message: message.to_string() }),
    }
}

fn client_with_cluster_id(cluster_id: u64) -> RpcClient {
    let members = GetMembersResponse {
        header: clean_header(cluster_id),
        members: vec![Member {
            id: 1,
            name: "m1".to_string(),
            peer_urls: vec!["10.0.0.1:2380".to_string()],
            client_urls: Vec::new(),
        }],
    };
    RpcClient::new("10.0.0.1:2379", vec![ProbeOutcome::Members(members)])
        .expect("construction should succeed")
}

fn store(id: u64) -> Store {
    Store { id, address: "10.0.0.9:20160".to_string() }
}

fn region(id: u64) -> Region {
    Region {
        id,
        start_key: b"a".to_vec(),
        end_key: b"z".to_vec(),
        peers: vec![Peer { id: 10, store_id: 1 }],
    }
}

#[test]
fn every_request_is_stamped_with_the_recorded_identifier() {
    let c = client_with_cluster_id(7);
    assert_eq!(c.header().cluster_id, 7);
    assert_eq!(c.alloc_id_request().header.cluster_id, 7);
    assert_eq!(c.is_cluster_bootstrapped_request().header.cluster_id, 7);
    let req = c.get_store_request(4);
    assert_eq!(req.header.cluster_id, 7);
    assert_eq!(req.store_id, 4);
    let req = c.get_region_request(b"key");
    assert_eq!(req.header.cluster_id, 7);
    assert_eq!(req.region_key, b"key".to_vec());
    let req = c.bootstrap_cluster_request(store(1), region(2));
    assert_eq!(req.header.cluster_id, 7);
    assert_eq!(req.store, store(1));
    assert_eq!(req.region, region(2));
}

#[test]
fn check_resp_header_passes_a_clean_header() {
    assert_eq!(check_resp_header(&clean_header(7)), Ok(()));
}

#[test]
fn check_resp_header_surfaces_the_embedded_error() {
    match check_resp_header(&error_header(7, "region is stale")) {
        Err(PdError::ServiceError(m)) => assert_eq!(m, "region is stale"),
        r => panic!("expected ServiceError, got {:?}", r),
    }
}

#[test]
fn error_header_yields_the_service_error_and_no_payload() {
    let resp = GetStoreResponse { header: error_header(7, "boom"), store: store(1) };
    match get_store_response(resp) {
        Err(PdError::ServiceError(m)) => assert_eq!(m, "boom"),
        r => panic!("expected ServiceError, got {:?}", r),
    }
    let resp = BootstrapResponse { header: error_header(7, "already bootstrapped") };
    match bootstrap_cluster_response(resp) {
        Err(PdError::ServiceError(m)) => assert_eq!(m, "already bootstrapped"),
        r => panic!("expected ServiceError, got {:?}", r),
    }
}

#[test]
fn clean_header_yields_the_payload() {
    let resp = GetStoreResponse { header: clean_header(7), store: store(3) };
    assert_eq!(get_store_response(resp), Ok(store(3)));
    let resp = AllocIdResponse { header: clean_header(7), id: 42 };
    assert_eq!(alloc_id_response(resp), Ok(42));
    let resp = IsBootstrappedResponse { header: clean_header(7), bootstrapped: true };
    assert_eq!(is_cluster_bootstrapped_response(resp), Ok(true));
    let resp = GetRegionResponse { header: clean_header(7), region: region(5) };
    assert_eq!(get_region_response(resp), Ok(region(5)));
}

#[test]
fn absent_region_is_no_value_not_an_error() {
    let resp = GetRegionByIdResponse { header: clean_header(7), region: None };
    assert_eq!(get_region_by_id_response(resp), Ok(None));
    let resp = GetRegionByIdResponse { header: clean_header(7), region: Some(region(42)) };
    assert_eq!(get_region_by_id_response(resp), Ok(Some(region(42))));
}

#[test]
fn heartbeat_hands_back_the_whole_envelope() {
    let resp = RegionHeartbeatResponse {
        header: clean_header(7),
        change_peer: Some(Peer { id: 11, store_id: 2 }),
        transfer_leader: None,
    };
    assert_eq!(region_heartbeat_response(resp.clone()), Ok(resp));
}

#[test]
fn read_only_operations_are_idempotent() {
    let c = client_with_cluster_id(7);
    // identical requests both times...
    assert_eq!(c.get_store_request(9), c.get_store_request(9));
    // ...and identical payloads from an unchanged backend
    let make_resp = || GetStoreResponse { header: clean_header(7), store: store(9) };
    assert_eq!(get_store_response(make_resp()), get_store_response(make_resp()));
}
