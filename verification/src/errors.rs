//! The gateway's failure taxonomy.

use vstd::prelude::*;

verus! {

/// Every way the gateway can fail to turn a request into a local file.
///
/// `NoSubdomain` is deliberately absent: a host without a subdomain is a
/// pass-through to the default landing page, not a failure, and is reported
/// as a distinct success value by the identity resolver.
#[derive(Clone, Copy, Debug, PartialEq, Eq, Structural)]
pub enum GatewayError {
    /// The request carried no usable Host header.
    MalformedHost,
    /// The subdomain decoded to an entity that is not a public key.
    InvalidIdentity,
    /// The subdomain is not decodable and is not a known alias.
    UnknownAlias,
    /// The owner has no root route, so no site exists for it.
    SiteNotFound,
    /// No routing event exists for the requested path.
    RouteNotFound,
    /// A routing event exists but its content-hash tag is missing or invalid.
    MalformedRoute,
    /// An event-log query exceeded its fixed time bound.
    ProtocolTimeout,
    /// Every blob host failed or answered with a non-success status.
    ContentUnavailable,
    /// A filesystem operation failed.
    IoFailure,
}

} // verus!
