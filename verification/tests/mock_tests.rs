use nodedb_studio::mock::{ChangeOp, connections, explorer_collections, notifications, notify_channels};
use nodedb_studio::models::{NotificationTarget, Severity, StorageMode};
use nodedb_studio::registry::{AuthMode, ConnStatus};
use nodedb_studio::session::Capability;

#[test]
fn four_saved_connections_three_reachable() {
    let conns = connections();
    assert_eq!(conns.len(), 4);
    let reachable = conns.iter().filter(|c| c.status.is_connectable()).count();
    assert_eq!(reachable, 3);
    assert_eq!(conns[3].name, "test-nodedb");
    assert_eq!(conns[3].status, ConnStatus::Offline);
    assert_eq!(conns[3].auth_mode, AuthMode::Trust);
    assert_eq!(conns[3].username, None);
    assert_eq!(conns[3].sub, "");
}

#[test]
fn saved_connections_carry_connect_config() {
    let conns = connections();
    assert_eq!(conns[0].name, "local-nodedb-dev");
    assert_eq!(conns[0].meta, "nodedb · localhost:6433");
    assert_eq!(conns[0].db_count, Some(3));
    assert_eq!(conns[0].ping.as_deref(), Some("8.4ms"));
    assert_eq!(conns[0].port, 6433);
    assert_eq!(conns[0].default_database.as_deref(), Some("analytics"));
    assert_eq!(conns[1].name, "staging-cluster");
    assert_eq!(conns[1].username.as_deref(), Some("hatta_admin"));
    assert_eq!(conns[2].status, ConnStatus::ReadOnly);
    assert!(conns[2].tls.enabled);
    assert!(!conns[0].tls.enabled);
    assert!(conns.iter().all(|c| c.connect_timeout_secs.is_none() && c.server == "dev"));
}

#[test]
fn explorer_collections_in_sidebar_order() {
    let cs = explorer_collections();
    assert_eq!(cs.len(), 14);
    assert_eq!(cs[0].name, "users");
    assert_eq!(cs[0].mode, StorageMode::Document);
    assert_eq!(cs[0].count, "12,481");
    assert_eq!(cs[13].name, "articles_idx");
    assert_eq!(cs[13].mode, StorageMode::Fts);
    assert_eq!(cs[11].count, "42");
}

#[test]
fn notification_feed_has_six_entries() {
    let ns = notifications();
    assert_eq!(ns.len(), 6);
    assert_eq!(ns[0].id, "sync-conflict-1");
    assert_eq!(ns[0].required_cap, Some(Capability::Sync));
    assert_eq!(ns[2].severity, Severity::Error);
    assert_eq!(ns[2].target, NotificationTarget::StreamsCron);
    assert_eq!(ns[5].desc, "\"orders_by_region_2024.sql\" · 18 rows in 2m 41s");
    assert_eq!(ns.iter().filter(|n| n.unread).count(), 4);
}

#[test]
fn change_op_labels_and_classes() {
    assert_eq!(ChangeOp::Insert.label(), "INSERT");
    assert_eq!(ChangeOp::Update.label(), "UPDATE");
    assert_eq!(ChangeOp::Delete.label(), "DELETE");
    assert_eq!(ChangeOp::Insert.css(), "ins");
    assert_eq!(ChangeOp::Update.css(), "upd");
    assert_eq!(ChangeOp::Delete.css(), "del");
}

#[test]
fn notify_channels_only_first_active() {
    let ch = notify_channels();
    assert_eq!(ch.len(), 6);
    assert_eq!(ch[0].name, "user_events");
    assert_eq!(ch[0].listeners, "12");
    assert!(ch[0].active);
    assert!(ch[1..].iter().all(|c| !c.active));
    assert_eq!(ch[5].name, "presence_room_1");
}

#[test]
fn conn_status_connectability() {
    assert!(ConnStatus::Online.is_connectable());
    assert!(ConnStatus::ReadOnly.is_connectable());
    assert!(!ConnStatus::Offline.is_connectable());
}
