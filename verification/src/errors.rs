//! The failures a caller can observe, one variant per condition described
//! by the client's error taxonomy.

use vstd::prelude::*;
use crate::messages::GetMembersResponse;

verus! {

/// Why a client operation or the client's construction failed.
#[derive(Debug, Clone, PartialEq)]
pub enum PdError {
    /// Construction was given no endpoints at all.
    EmptyEndpoints,
    /// Construction was given the same endpoint twice; the payload is the
    /// repeated address.
    DuplicateEndpoint(String),
    /// Two probed endpoints reported different cluster identifiers.
    ClusterIdMismatch { expected: u64, got: u64 },
    /// No candidate endpoint yielded a connection and a membership response.
    NoEndpointReachable,
    /// A reconnection pass tried every member without success; the payload
    /// is the membership snapshot that was tried, for diagnostics.
    FailoverExhausted(GetMembersResponse),
    /// The bounded retry budget was consumed without one successful call.
    RetryExhausted,
    /// The service itself rejected the request; the payload is the message
    /// carried in the response header, verbatim.
    ServiceError(String),
}

} // verus!
