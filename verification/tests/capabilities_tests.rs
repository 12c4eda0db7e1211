use nodedb_studio::capabilities_map::derive_capabilities;
use nodedb_types::protocol::{
    CAP_COLUMNAR, CAP_CRDT, CAP_FTS, CAP_GRAPHRAG, CAP_MSGPACK, CAP_SPATIAL, CAP_STREAMING,
    CAP_TIMESERIES,
};

#[test]
fn maps_graphrag_bit_to_graph_capability() {
    let caps = derive_capabilities(CAP_GRAPHRAG | CAP_FTS);
    assert!(caps.graph);
    assert!(caps.fts);
    assert!(!caps.sync);
}

#[test]
fn maps_all_bits() {
    let bits = CAP_STREAMING | CAP_GRAPHRAG | CAP_FTS | CAP_CRDT | CAP_SPATIAL | CAP_TIMESERIES;
    let caps = derive_capabilities(bits);
    assert!(caps.streams);
    assert!(caps.graph);
    assert!(caps.fts);
    assert!(caps.sync);
    assert!(caps.spatial);
    assert!(caps.timeseries);
}

#[test]
fn maps_zero_bits_to_all_false_features() {
    let caps = derive_capabilities(0);
    assert!(!caps.graph);
    assert!(!caps.fts);
    assert!(!caps.spatial);
    assert!(!caps.streams);
    assert!(!caps.timeseries);
    assert!(!caps.sync);
}

#[test]
fn vector_is_always_on() {
    assert!(derive_capabilities(0).vector);
}

#[test]
fn cluster_defaults_off() {
    assert!(!derive_capabilities(0).cluster);
}

#[test]
fn readonly_defaults_writable() {
    assert!(!derive_capabilities(0).readonly);
}

#[test]
fn each_bit_maps_to_exactly_one_feature() {
    let caps = derive_capabilities(CAP_SPATIAL);
    assert!(caps.spatial);
    assert!(!caps.graph && !caps.fts && !caps.streams && !caps.timeseries && !caps.sync);
    let caps = derive_capabilities(CAP_STREAMING);
    assert!(caps.streams && !caps.spatial);
    let caps = derive_capabilities(CAP_TIMESERIES);
    assert!(caps.timeseries && !caps.streams);
}

#[test]
fn unmapped_bits_are_ignored() {
    let caps = derive_capabilities(CAP_COLUMNAR | CAP_MSGPACK);
    assert!(!caps.graph && !caps.fts && !caps.spatial && !caps.streams);
    assert!(!caps.timeseries && !caps.sync && !caps.cluster && !caps.readonly);
    assert!(caps.vector);
}

#[test]
fn more_bits_never_hide_a_feature() {
    let fewer = derive_capabilities(CAP_FTS);
    let more = derive_capabilities(CAP_FTS | CAP_CRDT);
    assert!(fewer.fts && more.fts);
    assert!(!fewer.sync && more.sync);
}
