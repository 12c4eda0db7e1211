//! The live session model: feature capabilities and the active connection.

use vstd::prelude::*;

verus! {

/// A studio feature that a connection may or may not offer.
#[derive(Debug, Clone, Copy, PartialEq, Eq, Structural)]
pub enum Capability {
    Graph,
    Vector,
    Streams,
    Timeseries,
    Spatial,
    Fts,
    Sync,
    Cluster,
}

/// The feature set of a connection, one flag per studio feature.
#[derive(Debug, Clone, Copy, PartialEq, Eq, Structural)]
pub struct Capabilities {
    pub graph: bool,
    pub fts: bool,
    pub spatial: bool,
    pub streams: bool,
    pub timeseries: bool,
    pub sync: bool,
    pub vector: bool,
    pub cluster: bool,
    pub readonly: bool,
}

impl Capabilities {
    /// The flag that gates `cap`.
    pub open spec fn spec_has(self, cap: Capability) -> bool {
        match cap {
            Capability::Graph => self.graph,
            Capability::Vector => self.vector,
            Capability::Streams => self.streams,
            Capability::Timeseries => self.timeseries,
            Capability::Spatial => self.spatial,
            Capability::Fts => self.fts,
            Capability::Sync => self.sync,
            Capability::Cluster => self.cluster,
        }
    }

    /// Whether this feature set offers `cap`.
    pub fn has(&self, cap: Capability) -> (r: bool)
        ensures
            r == self.spec_has(cap),
    {
        match cap {
            Capability::Graph => self.graph,
            Capability::Vector => self.vector,
            Capability::Streams => self.streams,
            Capability::Timeseries => self.timeseries,
            Capability::Spatial => self.spatial,
            Capability::Fts => self.fts,
            Capability::Sync => self.sync,
            Capability::Cluster => self.cluster,
        }
    }
}

/// The text of each string in a list.
pub open spec fn texts(s: Seq<String>) -> Seq<Seq<char>> {
    s.map_values(|x: String| x@)
}

/// A live session, shown in the connection chip.
#[derive(Debug)]
pub struct ActiveConnection {
    pub name: String,
    /// Secondary chip line, such as `nodedb · 0.3.0 · 2 dbs`.
    pub sub: String,
    pub user: String,
    pub role: String,
    pub capabilities: Capabilities,
    pub databases: Vec<String>,
    pub current_database: String,
}

/// The abstract value of [`ActiveConnection`].
pub struct ActiveConnectionView {
    pub name: Seq<char>,
    pub sub: Seq<char>,
    pub user: Seq<char>,
    pub role: Seq<char>,
    pub capabilities: Capabilities,
    pub databases: Seq<Seq<char>>,
    pub current_database: Seq<char>,
}

impl View for ActiveConnection {
    type V = ActiveConnectionView;

    open spec fn view(&self) -> ActiveConnectionView {
        ActiveConnectionView {
            name: self.name@,
            sub: self.sub@,
            user: self.user@,
            role: self.role@,
            capabilities: self.capabilities,
            databases: texts(self.databases@),
            current_database: self.current_database@,
        }
    }
}

} // verus!
