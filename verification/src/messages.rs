//! The wire messages this client exchanges with the coordination service,
//! modelled as plain records.  Every request carries a `RequestHeader`
//! stamped with the cluster identifier recorded at construction; every
//! response carries a `ResponseHeader` that may embed a service-level error.

use vstd::prelude::*;

verus! {

/// Envelope metadata stamped on every outgoing request.
#[derive(Debug, Clone, PartialEq)]
pub struct RequestHeader {
    pub cluster_id: u64,
}

/// A service-level error embedded in a response header: the round trip
/// succeeded at the transport level, but the service rejected the request.
#[derive(Debug, Clone, PartialEq)]
pub struct ResponseError {
    pub message: String,
}

/// Envelope metadata on every response.
#[derive(Debug, Clone, PartialEq)]
pub struct ResponseHeader {
    pub cluster_id: u64,
    pub error: Option<ResponseError>,
}

/// One replica of the coordination service.
#[derive(Debug, Clone, PartialEq)]
pub struct Member {
    pub id: u64,
    pub name: String,
    pub peer_urls: Vec<String>,
    pub client_urls: Vec<String>,
}

/// The membership snapshot reported by a replica: the full member list
/// plus, in the header, the identifier of the logical cluster.
#[derive(Debug, Clone, PartialEq)]
pub struct GetMembersResponse {
    pub header: ResponseHeader,
    pub members: Vec<Member>,
}

/// A storage node registered with the coordination service.
#[derive(Debug, Clone, PartialEq)]
pub struct Store {
    pub id: u64,
    pub address: String,
}

/// A contiguous key range served by a group of peers.
#[derive(Debug, Clone, PartialEq)]
pub struct Region {
    pub id: u64,
    pub start_key: Vec<u8>,
    pub end_key: Vec<u8>,
    pub peers: Vec<Peer>,
}

/// One replica of a region, placed on one store.
#[derive(Debug, Clone, PartialEq)]
pub struct Peer {
    pub id: u64,
    pub store_id: u64,
}

/// Cluster-wide configuration.
#[derive(Debug, Clone, PartialEq)]
pub struct Cluster {
    pub id: u64,
    pub max_peer_count: u32,
}

/// Liveness statistics for one peer, reported with a region heartbeat.
#[derive(Debug, Clone, PartialEq)]
pub struct PeerStats {
    pub peer: Peer,
    pub down_seconds: u64,
}

/// Load statistics for one store, reported with a store heartbeat.
#[derive(Debug, Clone, PartialEq)]
pub struct StoreStats {
    pub store_id: u64,
    pub capacity: u64,
    pub available: u64,
    pub region_count: u32,
}

#[derive(Debug, Clone, PartialEq)]
pub struct BootstrapRequest {
    pub header: RequestHeader,
    pub store: Store,
    pub region: Region,
}

#[derive(Debug, Clone, PartialEq)]
pub struct BootstrapResponse {
    pub header: ResponseHeader,
}

#[derive(Debug, Clone, PartialEq)]
pub struct IsBootstrappedRequest {
    pub header: RequestHeader,
}

#[derive(Debug, Clone, PartialEq)]
pub struct IsBootstrappedResponse {
    pub header: ResponseHeader,
    pub bootstrapped: bool,
}

#[derive(Debug, Clone, PartialEq)]
pub struct AllocIdRequest {
    pub header: RequestHeader,
}

#[derive(Debug, Clone, PartialEq)]
pub struct AllocIdResponse {
    pub header: ResponseHeader,
    pub id: u64,
}

#[derive(Debug, Clone, PartialEq)]
pub struct PutStoreRequest {
    pub header: RequestHeader,
    pub store: Store,
}

#[derive(Debug, Clone, PartialEq)]
pub struct PutStoreResponse {
    pub header: ResponseHeader,
}

#[derive(Debug, Clone, PartialEq)]
pub struct GetStoreRequest {
    pub header: RequestHeader,
    pub store_id: u64,
}

#[derive(Debug, Clone, PartialEq)]
pub struct GetStoreResponse {
    pub header: ResponseHeader,
    pub store: Store,
}

#[derive(Debug, Clone, PartialEq)]
pub struct GetClusterConfigRequest {
    pub header: RequestHeader,
}

#[derive(Debug, Clone, PartialEq)]
pub struct GetClusterConfigResponse {
    pub header: ResponseHeader,
    pub cluster: Cluster,
}

#[derive(Debug, Clone, PartialEq)]
pub struct GetRegionRequest {
    pub header: RequestHeader,
    pub region_key: Vec<u8>,
}

#[derive(Debug, Clone, PartialEq)]
pub struct GetRegionResponse {
    pub header: ResponseHeader,
    pub region: Region,
}

#[derive(Debug, Clone, PartialEq)]
pub struct GetRegionByIdRequest {
    pub header: RequestHeader,
    pub region_id: u64,
}

/// The region is absent (`None`) when no region with the asked-for
/// identifier exists; that is "no value", not an error.
#[derive(Debug, Clone, PartialEq)]
pub struct GetRegionByIdResponse {
    pub header: ResponseHeader,
    pub region: Option<Region>,
}

#[derive(Debug, Clone, PartialEq)]
pub struct RegionHeartbeatRequest {
    pub header: RequestHeader,
    pub region: Region,
    pub leader: Peer,
    pub down_peers: Vec<PeerStats>,
    pub pending_peers: Vec<Peer>,
}

/// Scheduling directives handed back by the service after a region
/// heartbeat; the caller inspects the optional directives itself.
#[derive(Debug, Clone, PartialEq)]
pub struct RegionHeartbeatResponse {
    pub header: ResponseHeader,
    pub change_peer: Option<Peer>,
    pub transfer_leader: Option<Peer>,
}

#[derive(Debug, Clone, PartialEq)]
pub struct AskSplitRequest {
    pub header: RequestHeader,
    pub region: Region,
}

#[derive(Debug, Clone, PartialEq)]
pub struct AskSplitResponse {
    pub header: ResponseHeader,
    pub new_region_id: u64,
    pub new_peer_ids: Vec<u64>,
}

#[derive(Debug, Clone, PartialEq)]
pub struct StoreHeartbeatRequest {
    pub header: RequestHeader,
    pub stats: StoreStats,
}

#[derive(Debug, Clone, PartialEq)]
pub struct StoreHeartbeatResponse {
    pub header: ResponseHeader,
}

#[derive(Debug, Clone, PartialEq)]
pub struct ReportSplitRequest {
    pub header: RequestHeader,
    pub left: Region,
    pub right: Region,
}

#[derive(Debug, Clone, PartialEq)]
pub struct ReportSplitResponse {
    pub header: ResponseHeader,
}

} // verus!
