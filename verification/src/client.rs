//! The client façade: one operation per metadata action.
//!
//! Each operation builds a request envelope stamped with the cluster
//! identifier recorded at construction, has the embedding program carry
//! the envelope over the wire under the retry executor, then validates the
//! response header and extracts the payload.  The build and extract halves
//! are the decisions, and they are verified here; the wire crossing
//! between them is the transport's.

use vstd::prelude::*;
use crate::discovery::{
    cid_of, config_ok, dup_before, expected_cid, first_members, first_mismatch, has_duplicate,
    has_members,
    has_mismatch, members_of, validate_endpoints, ProbeOutcome,
};
use crate::endpoints::{parse_endpoints, spec_parse_endpoints};
use crate::errors::PdError;
use crate::messages::{
    AllocIdRequest, AllocIdResponse, AskSplitRequest, AskSplitResponse, BootstrapRequest,
    BootstrapResponse, Cluster, GetClusterConfigRequest, GetClusterConfigResponse,
    GetMembersResponse, GetRegionByIdRequest, GetRegionByIdResponse, GetRegionRequest,
    GetRegionResponse, GetStoreRequest, GetStoreResponse, IsBootstrappedRequest,
    IsBootstrappedResponse, Peer, PeerStats, PutStoreRequest, PutStoreResponse, Region,
    RegionHeartbeatRequest, RegionHeartbeatResponse, ReportSplitRequest, ReportSplitResponse,
    RequestHeader, ResponseHeader, Store, StoreHeartbeatRequest, StoreHeartbeatResponse,
    StoreStats,
};

verus! {

/// The message of the service-level error embedded in a header.
pub open spec fn spec_err_message(h: ResponseHeader) -> String
    recommends
        h.error is Some,
{
    match h.error {
        Some(e) => e.message,
        None => arbitrary(),
    }
}

/// What a caller observes from a structurally successful round trip: the
/// payload when the response header is clean, and otherwise exactly the
/// service-level error it embeds — never both.
pub open spec fn spec_extract<P>(h: ResponseHeader, payload: P) -> Result<P, PdError> {
    match h.error {
        None => Ok(payload),
        Some(e) => Err(PdError::ServiceError(e.message)),
    }
}

/// Inspect a response envelope for an embedded service-level error and
/// convert it to a typed failure, message verbatim.
pub fn check_resp_header(header: &ResponseHeader) -> (r: Result<(), PdError>)
    ensures
        r == spec_extract(*header, ()),
{
    match &header.error {
        None => Ok(()),
        Some(e) => Err(PdError::ServiceError(e.message.clone())),
    }
}

/// A caller never observes a payload from a response whose header carries
/// an error: extraction yields exactly the embedded service-level error.
pub proof fn lemma_error_header_hides_payload<P>(h: ResponseHeader, payload: P)
    requires
        h.error is Some,
    ensures
        !(spec_extract(h, payload) is Ok),
        spec_extract(h, payload) == Err::<P, PdError>(
            PdError::ServiceError(spec_err_message(h)),
        ),
{
}

/// Idempotence of the read-only operations: issued twice against an
/// unchanged backend — the same response envelope both times — extraction
/// observes identical payloads.  The outgoing side repeats identically
/// too: every request builder's contract pins each field of the envelope
/// from the client and the arguments alone.
pub proof fn lemma_read_only_idempotent<P>(h1: ResponseHeader, p1: P, h2: ResponseHeader, p2: P)
    requires
        h1 == h2,
        p1 == p2,
    ensures
        spec_extract(h1, p1) == spec_extract(h2, p2),
{
}

/// The resilient metadata client: the membership snapshot captured at
/// construction, never refreshed, whose header's cluster identifier is
/// stamped on every outgoing request.
#[derive(Debug, Clone, PartialEq)]
pub struct RpcClient {
    pub members: GetMembersResponse,
}

impl RpcClient {
    /// The identifier of the logical cluster discovered at construction.
    pub open spec fn spec_cluster_id(&self) -> u64 {
        self.members.header.cluster_id
    }

    /// Construct a client from the configured comma-separated endpoint
    /// string and the outcome of probing each parsed endpoint in order:
    /// the configuration checks and the discovery decision of
    /// [`validate_endpoints`], retaining the first successful membership
    /// response.
    pub fn new(endpoints: &str, probes: Vec<ProbeOutcome>) -> (r: Result<RpcClient, PdError>)
        requires
            probes@.len() == spec_parse_endpoints(endpoints@).len(),
        ensures
            spec_parse_endpoints(endpoints@).len() == 0 ==> r matches Err(
                PdError::EmptyEndpoints,
            ),
            spec_parse_endpoints(endpoints@).len() > 0 && has_duplicate(
                spec_parse_endpoints(endpoints@),
            ) ==> (r matches Err(PdError::DuplicateEndpoint(e)) && exists|j: int|
                #![auto]
                0 <= j < spec_parse_endpoints(endpoints@).len() && dup_before(
                    spec_parse_endpoints(endpoints@),
                    j,
                ) && (forall|k: int|
                    0 <= k < j ==> !dup_before(spec_parse_endpoints(endpoints@), k)) && e@
                    == spec_parse_endpoints(endpoints@)[j]),
            config_ok(spec_parse_endpoints(endpoints@)) && has_mismatch(probes@) ==> (r matches Err(
                PdError::ClusterIdMismatch { expected, got },
            ) && expected == expected_cid(probes@) && got == cid_of(
                probes@[first_mismatch(probes@)],
            )),
            config_ok(spec_parse_endpoints(endpoints@)) && !has_mismatch(probes@) && has_members(
                probes@,
            ) ==> (r matches Ok(c) && c.members == members_of(probes@[first_members(probes@)])
                && c.spec_cluster_id() == expected_cid(probes@)),
            config_ok(spec_parse_endpoints(endpoints@)) && !has_members(probes@) ==> r matches Err(
                PdError::NoEndpointReachable,
            ),
    {
        let eps = parse_endpoints(endpoints);
        match validate_endpoints(&eps, probes) {
            Ok(p) => Ok(RpcClient { members: p.1 }),
            Err(e) => Err(e),
        }
    }

    /// The request envelope metadata: every outgoing call is stamped with
    /// the cluster identifier recorded at construction.
    pub fn header(&self) -> (h: RequestHeader)
        ensures
            h.cluster_id == self.spec_cluster_id(),
    {
        RequestHeader { cluster_id: self.members.header.cluster_id }
    }

    /// The cluster identifier this client talks to.
    pub fn get_cluster_id(&self) -> (r: Result<u64, PdError>)
        ensures
            r matches Ok(id) && id == self.spec_cluster_id(),
    {
        Ok(self.members.header.cluster_id)
    }

    pub fn bootstrap_cluster_request(&self, store: Store, region: Region) -> (req:
        BootstrapRequest)
        ensures
            req.header.cluster_id == self.spec_cluster_id(),
            req.store == store,
            req.region == region,
    {
        BootstrapRequest { header: self.header(), store, region }
    }

    pub fn is_cluster_bootstrapped_request(&self) -> (req: IsBootstrappedRequest)
        ensures
            req.header.cluster_id == self.spec_cluster_id(),
    {
        IsBootstrappedRequest { header: self.header() }
    }

    pub fn alloc_id_request(&self) -> (req: AllocIdRequest)
        ensures
            req.header.cluster_id == self.spec_cluster_id(),
    {
        AllocIdRequest { header: self.header() }
    }

    pub fn put_store_request(&self, store: Store) -> (req: PutStoreRequest)
        ensures
            req.header.cluster_id == self.spec_cluster_id(),
            req.store == store,
    {
        PutStoreRequest { header: self.header(), store }
    }

    pub fn get_store_request(&self, store_id: u64) -> (req: GetStoreRequest)
        ensures
            req.header.cluster_id == self.spec_cluster_id(),
            req.store_id == store_id,
    {
        GetStoreRequest { header: self.header(), store_id }
    }

    pub fn get_cluster_config_request(&self) -> (req: GetClusterConfigRequest)
        ensures
            req.header.cluster_id == self.spec_cluster_id(),
    {
        GetClusterConfigRequest { header: self.header() }
    }

    pub fn get_region_request(&self, key: &[u8]) -> (req: GetRegionRequest)
        ensures
            req.header.cluster_id == self.spec_cluster_id(),
            req.region_key@ == key@,
    {
        GetRegionRequest { header: self.header(), region_key: vstd::slice::slice_to_vec(key) }
    }

    pub fn get_region_by_id_request(&self, region_id: u64) -> (req: GetRegionByIdRequest)
        ensures
            req.header.cluster_id == self.spec_cluster_id(),
            req.region_id == region_id,
    {
        GetRegionByIdRequest { header: self.header(), region_id }
    }

    pub fn region_heartbeat_request(
        &self,
        region: Region,
        leader: Peer,
        down_peers: Vec<PeerStats>,
        pending_peers: Vec<Peer>,
    ) -> (req: RegionHeartbeatRequest)
        ensures
            req.header.cluster_id == self.spec_cluster_id(),
            req.region == region,
            req.leader == leader,
            req.down_peers == down_peers,
            req.pending_peers == pending_peers,
    {
        RegionHeartbeatRequest { header: self.header(), region, leader, down_peers, pending_peers }
    }

    pub fn ask_split_request(&self, region: Region) -> (req: AskSplitRequest)
        ensures
            req.header.cluster_id == self.spec_cluster_id(),
            req.region == region,
    {
        AskSplitRequest { header: self.header(), region }
    }

    pub fn store_heartbeat_request(&self, stats: StoreStats) -> (req: StoreHeartbeatRequest)
        ensures
            req.header.cluster_id == self.spec_cluster_id(),
            req.stats == stats,
    {
        StoreHeartbeatRequest { header: self.header(), stats }
    }

    pub fn report_split_request(&self, left: Region, right: Region) -> (req: ReportSplitRequest)
        ensures
            req.header.cluster_id == self.spec_cluster_id(),
            req.left == left,
            req.right == right,
    {
        ReportSplitRequest { header: self.header(), left, right }
    }
}

pub fn bootstrap_cluster_response(resp: BootstrapResponse) -> (r: Result<(), PdError>)
    ensures
        r == spec_extract(resp.header, ()),
{
    check_resp_header(&resp.header)
}

pub fn is_cluster_bootstrapped_response(resp: IsBootstrappedResponse) -> (r: Result<
    bool,
    PdError,
>)
    ensures
        r == spec_extract(resp.header, resp.bootstrapped),
{
    match check_resp_header(&resp.header) {
        Ok(()) => Ok(resp.bootstrapped),
        Err(e) => Err(e),
    }
}

pub fn alloc_id_response(resp: AllocIdResponse) -> (r: Result<u64, PdError>)
    ensures
        r == spec_extract(resp.header, resp.id),
{
    match check_resp_header(&resp.header) {
        Ok(()) => Ok(resp.id),
        Err(e) => Err(e),
    }
}

pub fn put_store_response(resp: PutStoreResponse) -> (r: Result<(), PdError>)
    ensures
        r == spec_extract(resp.header, ()),
{
    check_resp_header(&resp.header)
}

pub fn get_store_response(resp: GetStoreResponse) -> (r: Result<Store, PdError>)
    ensures
        r == spec_extract(resp.header, resp.store),
{
    match check_resp_header(&resp.header) {
        Ok(()) => Ok(resp.store),
        Err(e) => Err(e),
    }
}

pub fn get_cluster_config_response(resp: GetClusterConfigResponse) -> (r: Result<Cluster, PdError>)
    ensures
        r == spec_extract(resp.header, resp.cluster),
{
    match check_resp_header(&resp.header) {
        Ok(()) => Ok(resp.cluster),
        Err(e) => Err(e),
    }
}

pub fn get_region_response(resp: GetRegionResponse) -> (r: Result<Region, PdError>)
    ensures
        r == spec_extract(resp.header, resp.region),
{
    match check_resp_header(&resp.header) {
        Ok(()) => Ok(resp.region),
        Err(e) => Err(e),
    }
}

/// "No value" — a genuinely absent region — is `Ok(None)`, not an error.
pub fn get_region_by_id_response(resp: GetRegionByIdResponse) -> (r: Result<
    Option<Region>,
    PdError,
>)
    ensures
        r == spec_extract(resp.header, resp.region),
{
    match check_resp_header(&resp.header) {
        Ok(()) => Ok(resp.region),
        Err(e) => Err(e),
    }
}

/// The heartbeat's whole envelope is handed back: the caller inspects the
/// scheduling directives it carries.
pub fn region_heartbeat_response(resp: RegionHeartbeatResponse) -> (r: Result<
    RegionHeartbeatResponse,
    PdError,
>)
    ensures
        r == spec_extract(resp.header, resp),
{
    match check_resp_header(&resp.header) {
        Ok(()) => Ok(resp),
        Err(e) => Err(e),
    }
}

pub fn ask_split_response(resp: AskSplitResponse) -> (r: Result<AskSplitResponse, PdError>)
    ensures
        r == spec_extract(resp.header, resp),
{
    match check_resp_header(&resp.header) {
        Ok(()) => Ok(resp),
        Err(e) => Err(e),
    }
}

pub fn store_heartbeat_response(resp: StoreHeartbeatResponse) -> (r: Result<(), PdError>)
    ensures
        r == spec_extract(resp.header, ()),
{
    check_resp_header(&resp.header)
}

pub fn report_split_response(resp: ReportSplitResponse) -> (r: Result<(), PdError>)
    ensures
        r == spec_extract(resp.header, ()),
{
    check_resp_header(&resp.header)
}

} // verus!
