//! The hardcoded data behind the mock connection service: saved
//! connections, explorer collections, the notification feed, and the
//! LISTEN/NOTIFY channel list.

use vstd::prelude::*;
use crate::models::{
    Collection, CollectionView, Notification, NotificationTarget, NotificationView, Severity,
    StorageMode, notification_views,
};
use crate::registry::{
    AuthMode, ConnStatus, SavedConnection, SavedConnectionView, TlsSettings, TlsSettingsView,
    default_tls, saved_views,
};
use crate::session::Capability;

verus! {

/// An owned copy of a string literal.
pub fn text(lit: &str) -> (r: String)
    ensures
        r@ == lit@,
{
    lit.to_owned()
}

fn tls_enabled() -> (r: TlsSettings)
    ensures
        r@ == (TlsSettingsView { enabled: true, ..default_tls() }),
{
    let mut t = TlsSettings::default();
    t.enabled = true;
    t
}

/// The four saved connections: three reachable, `test-nodedb` offline.
pub open spec fn mock_connections() -> Seq<SavedConnectionView> {
    seq![
        SavedConnectionView {
            name: "local-nodedb-dev"@,
            meta: "nodedb · localhost:6433"@,
            sub: "nodedb · 8.4ms · 3 dbs"@,
            status: ConnStatus::Online,
            db_count: Some(3u32),
            ping: Some("8.4ms"@),
            server: "dev"@,
            host: "localhost"@,
            port: 6433,
            auth_mode: AuthMode::Password,
            username: Some("root"@),
            default_database: Some("analytics"@),
            tls: default_tls(),
            connect_timeout_secs: None,
        },
        SavedConnectionView {
            name: "staging-cluster"@,
            meta: "nodedb · 3-node cluster · vpn"@,
            sub: "nodedb · 22ms · 12 dbs"@,
            status: ConnStatus::Online,
            db_count: Some(12u32),
            ping: Some("22ms"@),
            server: "dev"@,
            host: "localhost"@,
            port: 6433,
            auth_mode: AuthMode::Password,
            username: Some("hatta_admin"@),
            default_database: Some("analytics"@),
            tls: default_tls(),
            connect_timeout_secs: None,
        },
        SavedConnectionView {
            name: "prod-replica-eu"@,
            meta: "nodedb · eu-fra-1 · tls"@,
            sub: "nodedb · 98ms · 28 dbs"@,
            status: ConnStatus::ReadOnly,
            db_count: Some(28u32),
            ping: Some("98ms"@),
            server: "dev"@,
            host: "eu-fra-1"@,
            port: 6433,
            auth_mode: AuthMode::Password,
            username: Some("hatta_ro"@),
            default_database: Some("analytics_prod"@),
            tls: TlsSettingsView { enabled: true, ..default_tls() },
            connect_timeout_secs: None,
        },
        SavedConnectionView {
            name: "test-nodedb"@,
            meta: "nodedb · localhost:6433"@,
            sub: ""@,
            status: ConnStatus::Offline,
            db_count: None,
            ping: None,
            server: "dev"@,
            host: "localhost"@,
            port: 6433,
            auth_mode: AuthMode::Trust,
            username: None,
            default_database: None,
            tls: default_tls(),
            connect_timeout_secs: None,
        }
    ]
}

/// The saved connections shown on the connection manager.
pub fn connections() -> (r: Vec<SavedConnection>)
    ensures
        saved_views(r@) == mock_connections(),
{
    let mut v: Vec<SavedConnection> = Vec::new();
    v.push(SavedConnection {
        name: text("local-nodedb-dev"),
        meta: text("nodedb · localhost:6433"),
        sub: text("nodedb · 8.4ms · 3 dbs"),
        status: ConnStatus::Online,
        db_count: Some(3u32),
        ping: Some(text("8.4ms")),
        server: text("dev"),
        host: text("localhost"),
        port: 6433,
        auth_mode: AuthMode::Password,
        username: Some(text("root")),
        default_database: Some(text("analytics")),
        tls: TlsSettings::default(),
        connect_timeout_secs: None,
    });
    v.push(SavedConnection {
        name: text("staging-cluster"),
        meta: text("nodedb · 3-node cluster · vpn"),
        sub: text("nodedb · 22ms · 12 dbs"),
        status: ConnStatus::Online,
        db_count: Some(12u32),
        ping: Some(text("22ms")),
        server: text("dev"),
        host: text("localhost"),
        port: 6433,
        auth_mode: AuthMode::Password,
        username: Some(text("hatta_admin")),
        default_database: Some(text("analytics")),
        tls: TlsSettings::default(),
        connect_timeout_secs: None,
    });
    v.push(SavedConnection {
        name: text("prod-replica-eu"),
        meta: text("nodedb · eu-fra-1 · tls"),
        sub: text("nodedb · 98ms · 28 dbs"),
        status: ConnStatus::ReadOnly,
        db_count: Some(28u32),
        ping: Some(text("98ms")),
        server: text("dev"),
        host: text("eu-fra-1"),
        port: 6433,
        auth_mode: AuthMode::Password,
        username: Some(text("hatta_ro")),
        default_database: Some(text("analytics_prod")),
        tls: tls_enabled(),
        connect_timeout_secs: None,
    });
    v.push(SavedConnection {
        name: text("test-nodedb"),
        meta: text("nodedb · localhost:6433"),
        sub: text(""),
        status: ConnStatus::Offline,
        db_count: None,
        ping: None,
        server: text("dev"),
        host: text("localhost"),
        port: 6433,
        auth_mode: AuthMode::Trust,
        username: None,
        default_database: None,
        tls: TlsSettings::default(),
        connect_timeout_secs: None,
    });
    assert(saved_views(v@) =~= mock_connections());
    v
}

/// The explorer collections in sidebar order, grouped by storage mode.
pub open spec fn mock_collections() -> Seq<CollectionView> {
    seq![
        CollectionView { name: "users"@, mode: StorageMode::Document, count: "12,481"@ },
        CollectionView { name: "events"@, mode: StorageMode::Document, count: "2.4M"@ },
        CollectionView { name: "sessions"@, mode: StorageMode::Document, count: "88,209"@ },
        CollectionView { name: "orders"@, mode: StorageMode::Strict, count: "442,003"@ },
        CollectionView { name: "invoices"@, mode: StorageMode::Strict, count: "95,818"@ },
        CollectionView { name: "doc_embeddings"@, mode: StorageMode::Vector, count: "1.1M"@ },
        CollectionView { name: "product_embeds"@, mode: StorageMode::Vector, count: "88,400"@ },
        CollectionView { name: "social_graph"@, mode: StorageMode::Graph, count: "3.2M"@ },
        CollectionView { name: "metrics"@, mode: StorageMode::Timeseries, count: "48M"@ },
        CollectionView { name: "sensor_temps"@, mode: StorageMode::Timeseries, count: "5.1M"@ },
        CollectionView { name: "sessions_cache"@, mode: StorageMode::Kv, count: "18,200"@ },
        CollectionView { name: "feature_flags"@, mode: StorageMode::Kv, count: "42"@ },
        CollectionView { name: "store_locations"@, mode: StorageMode::Spatial, count: "2,108"@ },
        CollectionView { name: "articles_idx"@, mode: StorageMode::Fts, count: "241,005"@ }
    ]
}

fn collection(name: &str, mode: StorageMode, count: &str) -> (r: Collection)
    ensures
        r@ == (CollectionView { name: name@, mode, count: count@ }),
{
    Collection { name: text(name), mode, count: text(count) }
}

/// The collections listed in the explorer sidebar.
pub fn explorer_collections() -> (r: Vec<Collection>)
    ensures
        r@.map_values(|c: Collection| c@) == mock_collections(),
{
    let mut v: Vec<Collection> = Vec::new();
    v.push(collection("users", StorageMode::Document, "12,481"));
    v.push(collection("events", StorageMode::Document, "2.4M"));
    v.push(collection("sessions", StorageMode::Document, "88,209"));
    v.push(collection("orders", StorageMode::Strict, "442,003"));
    v.push(collection("invoices", StorageMode::Strict, "95,818"));
    v.push(collection("doc_embeddings", StorageMode::Vector, "1.1M"));
    v.push(collection("product_embeds", StorageMode::Vector, "88,400"));
    v.push(collection("social_graph", StorageMode::Graph, "3.2M"));
    v.push(collection("metrics", StorageMode::Timeseries, "48M"));
    v.push(collection("sensor_temps", StorageMode::Timeseries, "5.1M"));
    v.push(collection("sessions_cache", StorageMode::Kv, "18,200"));
    v.push(collection("feature_flags", StorageMode::Kv, "42"));
    v.push(collection("store_locations", StorageMode::Spatial, "2,108"));
    v.push(collection("articles_idx", StorageMode::Fts, "241,005"));
    assert(v@.map_values(|c: Collection| c@) =~= mock_collections());
    v
}

/// The notification feed, before capability gating.
pub open spec fn mock_notifications() -> Seq<NotificationView> {
    seq![
        NotificationView {
            id: "sync-conflict-1"@,
            severity: Severity::Warn,
            group: "Sync conflicts"@,
            required_cap: Some(Capability::Sync),
            title: "users / u_44182 / email"@,
            desc: "Two writes within 14ms · LWW pending"@,
            when: "2m ago"@,
            target: NotificationTarget::Sync,
            unread: true,
        },
        NotificationView {
            id: "sync-conflict-2"@,
            severity: Severity::Warn,
            group: "Sync conflicts"@,
            required_cap: Some(Capability::Sync),
            title: "users / u_77103 / preferences"@,
            desc: "Concurrent edit on edge-sg-1 · merge needed"@,
            when: "4m ago"@,
            target: NotificationTarget::Sync,
            unread: true,
        },
        NotificationView {
            id: "cron-fail"@,
            severity: Severity::Error,
            group: "Scheduled jobs"@,
            required_cap: None,
            title: "vector_reindex failed"@,
            desc: "Out of memory at step 4 · last 3 runs failed"@,
            when: "3d ago"@,
            target: NotificationTarget::StreamsCron,
            unread: true,
        },
        NotificationView {
            id: "stream-stalled"@,
            severity: Severity::Warn,
            group: "Streams"@,
            required_cap: Some(Capability::Streams),
            title: "payment_failed consumer stalled"@,
            desc: "lag 4.2s · group=fraud-svc · 1 of 2 stalled"@,
            when: "8m ago"@,
            target: NotificationTarget::StreamsTopics,
            unread: true,
        },
        NotificationView {
            id: "lag-resolved"@,
            severity: Severity::Info,
            group: "Cluster"@,
            required_cap: Some(Capability::Cluster),
            title: "Replication lag normalized"@,
            desc: "node-5 caught up · was 1,309 behind"@,
            when: "12m ago"@,
            target: NotificationTarget::Admin,
            unread: false,
        },
        NotificationView {
            id: "query-done"@,
            severity: Severity::Info,
            group: "Queries"@,
            required_cap: None,
            title: "Long-running query finished"@,
            desc: "\"orders_by_region_2024.sql\" · 18 rows in 2m 41s"@,
            when: "22m ago"@,
            target: NotificationTarget::Query,
            unread: false,
        }
    ]
}

/// The full notification feed.
pub fn notifications() -> (r: Vec<Notification>)
    ensures
        notification_views(r@) == mock_notifications(),
{
    let mut v: Vec<Notification> = Vec::new();
    v.push(Notification {
        id: text("sync-conflict-1"),
        severity: Severity::Warn,
        group: text("Sync conflicts"),
        required_cap: Some(Capability::Sync),
        title: text("users / u_44182 / email"),
        desc: text("Two writes within 14ms · LWW pending"),
        when: text("2m ago"),
        target: NotificationTarget::Sync,
        unread: true,
    });
    v.push(Notification {
        id: text("sync-conflict-2"),
        severity: Severity::Warn,
        group: text("Sync conflicts"),
        required_cap: Some(Capability::Sync),
        title: text("users / u_77103 / preferences"),
        desc: text("Concurrent edit on edge-sg-1 · merge needed"),
        when: text("4m ago"),
        target: NotificationTarget::Sync,
        unread: true,
    });
    v.push(Notification {
        id: text("cron-fail"),
        severity: Severity::Error,
        group: text("Scheduled jobs"),
        required_cap: None,
        title: text("vector_reindex failed"),
        desc: text("Out of memory at step 4 · last 3 runs failed"),
        when: text("3d ago"),
        target: NotificationTarget::StreamsCron,
        unread: true,
    });
    v.push(Notification {
        id: text("stream-stalled"),
        severity: Severity::Warn,
        group: text("Streams"),
        required_cap: Some(Capability::Streams),
        title: text("payment_failed consumer stalled"),
        desc: text("lag 4.2s · group=fraud-svc · 1 of 2 stalled"),
        when: text("8m ago"),
        target: NotificationTarget::StreamsTopics,
        unread: true,
    });
    v.push(Notification {
        id: text("lag-resolved"),
        severity: Severity::Info,
        group: text("Cluster"),
        required_cap: Some(Capability::Cluster),
        title: text("Replication lag normalized"),
        desc: text("node-5 caught up · was 1,309 behind"),
        when: text("12m ago"),
        target: NotificationTarget::Admin,
        unread: false,
    });
    v.push(Notification {
        id: text("query-done"),
        severity: Severity::Info,
        group: text("Queries"),
        required_cap: None,
        title: text("Long-running query finished"),
        desc: text("\"orders_by_region_2024.sql\" · 18 rows in 2m 41s"),
        when: text("22m ago"),
        target: NotificationTarget::Query,
        unread: false,
    });
    assert(notification_views(v@) =~= mock_notifications());
    v
}

/// The change operation in a change-data-capture event.
#[derive(Debug, Clone, Copy, PartialEq, Eq, Structural)]
pub enum ChangeOp {
    Insert,
    Update,
    Delete,
}

impl ChangeOp {
    /// The uppercase label of the op column.
    pub open spec fn spec_label(self) -> Seq<char> {
        match self {
            ChangeOp::Insert => "INSERT"@,
            ChangeOp::Update => "UPDATE"@,
            ChangeOp::Delete => "DELETE"@,
        }
    }

    /// The style class of the op pill.
    pub open spec fn spec_css(self) -> Seq<char> {
        match self {
            ChangeOp::Insert => "ins"@,
            ChangeOp::Update => "upd"@,
            ChangeOp::Delete => "del"@,
        }
    }

    /// Uppercase label shown in the op column.
    pub fn label(self) -> (r: &'static str)
        ensures
            r@ == self.spec_label(),
    {
        match self {
            ChangeOp::Insert => "INSERT",
            ChangeOp::Update => "UPDATE",
            ChangeOp::Delete => "DELETE",
        }
    }

    /// Style modifier class for the op pill.
    pub fn css(self) -> (r: &'static str)
        ensures
            r@ == self.spec_css(),
    {
        match self {
            ChangeOp::Insert => "ins",
            ChangeOp::Update => "upd",
            ChangeOp::Delete => "del",
        }
    }
}

/// A LISTEN/NOTIFY channel in the sidebar.
pub struct NotifyChannel {
    pub name: &'static str,
    pub listeners: &'static str,
    pub active: bool,
}

/// The channel list as (name, listener count, active) triples.
pub open spec fn mock_channels() -> Seq<(Seq<char>, Seq<char>, bool)> {
    seq![
        ("user_events"@, "12"@, true),
        ("deploy_hooks"@, "3"@, false),
        ("cache_invalidate"@, "5"@, false),
        ("alerts"@, "8"@, false),
        ("jobs_done"@, "14"@, false),
        ("presence_room_1"@, "22"@, false)
    ]
}

/// The notify channel list; only the first channel is active.
pub fn notify_channels() -> (r: Vec<NotifyChannel>)
    ensures
        r@.map_values(|c: NotifyChannel| (c.name@, c.listeners@, c.active)) == mock_channels(),
{
    let mut v: Vec<NotifyChannel> = Vec::new();
    v.push(NotifyChannel { name: "user_events", listeners: "12", active: true });
    v.push(NotifyChannel { name: "deploy_hooks", listeners: "3", active: false });
    v.push(NotifyChannel { name: "cache_invalidate", listeners: "5", active: false });
    v.push(NotifyChannel { name: "alerts", listeners: "8", active: false });
    v.push(NotifyChannel { name: "jobs_done", listeners: "14", active: false });
    v.push(NotifyChannel { name: "presence_room_1", listeners: "22", active: false });
    assert(v@.map_values(|c: NotifyChannel| (c.name@, c.listeners@, c.active)) =~= mock_channels());
    v
}

} // verus!
