//! Maps the server's capability bitmask onto the studio's feature flags.
//!
//! An absent bit hides its feature. `vector` is a core engine and always on;
//! `cluster` and `readonly` cannot be told from the handshake and stay off.

use vstd::prelude::*;
use nodedb_client::Capabilities as ClientCaps;
use crate::session::Capabilities;

verus! {

/// Calls `Capabilities::supports_streaming`, which tests `CAP_STREAMING` (`1 << 0`).
#[verifier::external_body]
fn supports_streaming(bits: u64) -> (r: bool)
    ensures
        r == (bits & 1 != 0),
{
    ClientCaps::from_raw(bits).supports_streaming()
}

/// Calls `Capabilities::supports_graphrag`, which tests `CAP_GRAPHRAG` (`1 << 1`).
#[verifier::external_body]
fn supports_graphrag(bits: u64) -> (r: bool)
    ensures
        r == (bits & 2 != 0),
{
    ClientCaps::from_raw(bits).supports_graphrag()
}

/// Calls `Capabilities::supports_fts`, which tests `CAP_FTS` (`1 << 2`).
#[verifier::external_body]
fn supports_fts(bits: u64) -> (r: bool)
    ensures
        r == (bits & 4 != 0),
{
    ClientCaps::from_raw(bits).supports_fts()
}

/// Calls `Capabilities::supports_crdt`, which tests `CAP_CRDT` (`1 << 3`).
#[verifier::external_body]
fn supports_crdt(bits: u64) -> (r: bool)
    ensures
        r == (bits & 8 != 0),
{
    ClientCaps::from_raw(bits).supports_crdt()
}

/// Calls `Capabilities::supports_spatial`, which tests `CAP_SPATIAL` (`1 << 4`).
#[verifier::external_body]
fn supports_spatial(bits: u64) -> (r: bool)
    ensures
        r == (bits & 16 != 0),
{
    ClientCaps::from_raw(bits).supports_spatial()
}

/// Calls `Capabilities::supports_timeseries`, which tests `CAP_TIMESERIES` (`1 << 5`).
#[verifier::external_body]
fn supports_timeseries(bits: u64) -> (r: bool)
    ensures
        r == (bits & 32 != 0),
{
    ClientCaps::from_raw(bits).supports_timeseries()
}

/// The studio features a capability bitmask confirms.
pub open spec fn capabilities_of(bits: u64) -> Capabilities {
    Capabilities {
        graph: bits & 2 != 0,
        fts: bits & 4 != 0,
        spatial: bits & 16 != 0,
        streams: bits & 1 != 0,
        timeseries: bits & 32 != 0,
        sync: bits & 8 != 0,
        vector: true,
        cluster: false,
        readonly: false,
    }
}

/// Derive the studio's feature flags from a server capability bitmask.
pub fn derive_capabilities(bits: u64) -> (r: Capabilities)
    ensures
        r == capabilities_of(bits),
{
    Capabilities {
        graph: supports_graphrag(bits),
        fts: supports_fts(bits),
        spatial: supports_spatial(bits),
        streams: supports_streaming(bits),
        timeseries: supports_timeseries(bits),
        sync: supports_crdt(bits),
        vector: true,
        cluster: false,
        readonly: false,
    }
}

} // verus!
