//! Fixed settings of the service.

use crate::address::Ipv4Address;
use vstd::prelude::*;

verus! {

/// Seconds that every answer record may be kept by whoever receives it.
pub const ANSWER_TTL: u32 = 60;

/// Seconds after which an idle connection-oriented client is dropped.
pub const TCP_TIMEOUT_SECONDS: u64 = 10;

/// Seconds that one call of an upstream resolver may take.
pub const RESOLVE_TIMEOUT_SECONDS: u64 = 5;

/// Seconds that one fetch of the topology may take.
pub const TOPOLOGY_TIMEOUT_SECONDS: u64 = 30;

/// Port of the upstream resolvers.
pub const UPSTREAM_PORT: u16 = 53;

/// Port of the default listener.
pub const DEFAULT_UDP_PORT: u16 = 1053;

/// Minutes after which a snapshot is stale, in a production build.
pub const STATE_REFRESH_MINUTES: i64 = 5;

/// Minutes after which a snapshot is stale, in a debug build.
pub const STATE_REFRESH_MINUTES_DEBUG: i64 = 1;

/// The default staleness threshold, in minutes, for a kind of build.
pub open spec fn spec_state_refresh_minutes(debug_build: bool) -> int {
    if debug_build {
        1
    } else {
        5
    }
}

/// The default staleness threshold, in minutes: shorter in a debug build.
pub fn state_refresh_minutes(debug_build: bool) -> (minutes: i64)
    ensures
        minutes == spec_state_refresh_minutes(debug_build),
{
    if debug_build {
        STATE_REFRESH_MINUTES_DEBUG
    } else {
        STATE_REFRESH_MINUTES
    }
}

/// The upstream resolver that is asked first for a name that the snapshot
/// does not hold.
pub fn dns_server_to_query() -> (address: Ipv4Address)
    ensures
        address == (Ipv4Address { a: 1, b: 1, c: 1, d: 1 }),
{
    Ipv4Address::new(1, 1, 1, 1)
}

/// The upstream resolver that is asked when the first one fails.
pub fn dns_server_failover() -> (address: Ipv4Address)
    ensures
        address == (Ipv4Address { a: 145, b: 239, c: 186, d: 86 }),
{
    Ipv4Address::new(145, 239, 186, 86)
}

} // verus!
