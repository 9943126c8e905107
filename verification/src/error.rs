//! The failure taxonomy a caller can observe.

use vstd::prelude::*;

verus! {

/// A failure of the transport layer proper: either no response was
/// obtained at all, a success response would not decode as the tagged
/// envelope, or the status was a non-2xx that no more specific kind
/// covers.
#[derive(Debug, Clone)]
pub enum TransportFailure {
    /// The call failed before any response was obtained
    /// (connection or protocol failure).
    NoResponse { detail: String },
    /// A success status arrived but its body did not decode as the
    /// tagged envelope.
    Decode { detail: String },
    /// A non-2xx status other than 404 and 403.
    Status { status: u16 },
}

/// Every error a request can surface. Zero retries happen anywhere in
/// this layer: each failure reaches the immediate caller, specifically
/// kinded so the caller can apply its own retry policy.
#[derive(Debug, Clone)]
pub enum Error {
    /// The server answered 404; carries the requested URL.
    NotFound { url: String },
    /// The server answered 403; carries the raw response body text.
    PermissionDenied { reason: String },
    /// The server reported a domain error inside a successful envelope.
    Api { message: String },
    /// A network, protocol or decode failure, or an unclassified
    /// non-2xx status.
    Transport { failure: TransportFailure },
}

} // verus!
