//! Client-side resilience layer for a replicated cluster-metadata
//! (placement/coordination) service.
//!
//! The library validates a set of candidate endpoints, establishes a
//! consistent view of cluster membership, and then executes metadata
//! operations against whichever replica is reachable: failures are handled
//! by randomized failover over the membership snapshot and a bounded retry
//! loop.  The transport itself (opening channels, issuing remote calls) is
//! left to the embedding program; this crate holds every decision the
//! client makes, each stated in a contract.

pub mod client;
pub mod discovery;
pub mod endpoints;
pub mod errors;
pub mod executor;
pub mod failover;
pub mod messages;
pub mod search;
