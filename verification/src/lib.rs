//! A verified composite peer-protocol engine for a content-addressed
//! distribution network.
//!
//! The engine multiplexes several wire sub-protocols (liveness, identify,
//! NAT detection, relaying, hole punching, block exchange, publish/subscribe,
//! discovery, request/response RPC) over one connection set.  The driving
//! executor polls each sub-protocol and feeds the engine their native events;
//! the engine normalizes them into a single outbound event stream, keeps the
//! in-flight query and request registries, and answers synchronous commands
//! with the actions the executor must perform.

use vstd::prelude::*;

pub mod api;
pub mod bridge;
pub mod bytes;
pub mod capability;
pub mod correlator;
pub mod engine;
pub mod registry;
pub mod trace;
pub mod types;

verus! {

/// Agent-version string advertised to peers during identification.
pub fn ursa_agent() -> (r: String)
    ensures
        r@ == "ursa/0.1.0"@,
{
    "ursa/0.1.0".to_string()
}

} // verus!
