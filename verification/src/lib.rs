//! Client-side request-execution layer for a remote package-registry HTTP API.
//!
//! The layer has four parts, leaves first:
//! - a rate-gated transport, which serializes outbound requests behind a
//!   global minimum-interval gate and classifies responses into typed
//!   outcomes ([`transport`]);
//! - a lazy paginated sequence over a multi-page collection endpoint
//!   ([`paging`]);
//! - a page-accumulation helper that drains the reverse-dependency
//!   endpoint ([`rdeps`]);
//! - a fail-fast aggregator that joins several independent sub-fetches
//!   into one composite value ([`aggregate`]).
//!
//! The network itself, the JSON codec and the clock are supplied by the
//! caller: every function here is a decision or a combination step on plain
//! values, so the whole layer is verified. A thin driver wires these
//! decisions to an actual HTTP client.

pub mod aggregate;
pub mod error;
pub mod paging;
pub mod rdeps;
pub mod transport;
