//! Route planning for an MCP gateway: which endpoints a router serves and
//! which middleware wraps each of them, with the embedding surface proved to
//! be exactly the MCP protocol part of the full gateway.

pub mod gateway;
pub mod laws;
pub mod logging;
pub mod middleware;
pub mod route_table;

use vstd::prelude::*;

verus! {

/// The latest MCP protocol version that the gateway implements.
pub const MCP_PROTOCOL_VERSION: &'static str = "2025-11-25";

} // verus!
