//! Virtual-hosting gateway core: resolves a request's Host header to a site
//! owner, resolves paths to content hashes through a signed event log, and
//! plans content retrieval from an ordered list of blob hosts with an
//! on-disk, content-addressed cache.
//!
//! Everything here is pure decision logic: the surrounding process performs
//! the event-log queries, HTTP fetches and filesystem writes, and feeds the
//! results back in as plain values.

pub mod cache;
pub mod directory;
pub mod errors;
pub mod events;
pub mod hexcodec;
pub mod host;
pub mod identity;
pub mod site;
pub mod text;
pub mod weburl;

pub use errors::GatewayError;
