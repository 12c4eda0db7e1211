use nodedb_client::NodeDbError;
use nodedb_studio::auth::{AuthInput, build_client};
use nodedb_studio::error::StudioError;
use nodedb_studio::identity::ProbeResult;
use nodedb_studio::mock;
use nodedb_studio::registry::TlsSettings;
use nodedb_studio::service::{MockConnectionService, NodeDbConnectionService, describe_connection};

fn s(text: &str) -> Option<String> {
    Some(text.to_string())
}

fn result(columns: &[&str], rows: Vec<Vec<Option<String>>>) -> ProbeResult {
    ProbeResult { columns: columns.iter().map(|c| c.to_string()).collect(), rows }
}

fn lazy_client() -> nodedb_studio::auth::StudioClient {
    build_client(
        "127.0.0.1",
        6433,
        None,
        &TlsSettings::default(),
        None,
        AuthInput::Trust { username: "u".to_string() },
    )
}

#[test]
fn mock_notifications_returns_data() {
    let svc = MockConnectionService;
    let notifs = svc.notifications().expect("mock notifications are infallible");
    assert!(!notifs.is_empty());
}

#[test]
fn mock_list_connections_returns_data() {
    let svc = MockConnectionService;
    let conns = svc.list_connections().expect("mock list_connections is infallible");
    assert!(!conns.is_empty());
}

#[test]
fn mock_connect_known_name_returns_session() {
    let svc = MockConnectionService;
    let session = svc.connect("staging-cluster");
    assert!(session.is_ok());
}

#[test]
fn mock_connect_unknown_name_is_not_connected() {
    let svc = MockConnectionService;
    assert!(matches!(svc.connect("does-not-exist"), Err(StudioError::NotConnected)));
}

#[test]
fn mock_connect_offline_name_is_not_connected() {
    let svc = MockConnectionService;
    assert!(matches!(svc.connect("test-nodedb"), Err(StudioError::NotConnected)));
}

#[test]
fn mock_session_follows_the_saved_entry() {
    let svc = MockConnectionService;
    let s = svc.connect("prod-replica-eu").expect("read-only entries connect");
    assert_eq!(s.name, "prod-replica-eu");
    assert_eq!(s.user, "hatta_ro");
    assert_eq!(s.role, "");
    assert_eq!(s.current_database, "analytics_prod");
    assert_eq!(s.databases, vec!["analytics_prod"]);
    assert_eq!(s.sub, "nodedb · 1 dbs");
    assert!(s.capabilities.readonly);
    assert!(s.capabilities.graph && s.capabilities.sync && s.capabilities.vector);
    let local = svc.connect("local-nodedb-dev").expect("online entries connect");
    assert!(!local.capabilities.readonly);
    assert_eq!(local.user, "root");
}

#[test]
fn stub_returns_not_connected() {
    let svc = NodeDbConnectionService::default();
    assert!(matches!(svc.list_connections(), Err(StudioError::NotConnected)));
    assert!(matches!(svc.notifications(), Err(StudioError::NotConnected)));
    assert!(matches!(svc.connect("anything"), Err(StudioError::NotConnected)));
}

#[test]
fn connect_error_does_not_set_active() {
    let mut svc = NodeDbConnectionService::default();
    let saved = &mock::connections()[0];
    let probe: Result<ProbeResult, StudioError> =
        Err(StudioError::from(NodeDbError::authorization_denied("bad creds")));
    let assembled = svc.finish_connect(saved, lazy_client(), probe, 0, "", None);
    assert!(matches!(assembled, Err(StudioError::Auth(_))));
    assert!(!svc.is_connected(), "no client must be stored on a failed connect");
}

#[test]
fn describe_connection_builds_active_from_probe() {
    let who = result(
        &["current_user", "current_role", "current_database"],
        vec![vec![s("root"), s("admin"), s("analytics")]],
    );
    let dbs = result(&["name"], vec![vec![s("analytics")], vec![s("logs")]]);

    let conn = describe_connection(6, "0.3.0", Some(&who), Some(&dbs), Some("alice"), "prod", "mydb");

    assert_eq!(conn.name, "prod");
    assert_eq!(conn.user, "root");
    assert_eq!(conn.role, "admin");
    assert_eq!(conn.current_database, "analytics");
    assert_eq!(conn.databases, vec!["analytics", "logs"]);
    assert!(conn.capabilities.graph);
    assert!(conn.capabilities.fts);
    assert!(conn.capabilities.vector);
    assert!(!conn.capabilities.sync);
    assert_eq!(conn.sub, "nodedb · 0.3.0 · 2 dbs");
}

#[test]
fn describe_connection_uses_fallbacks_on_empty_probe() {
    let conn = describe_connection(0, "", None, None, Some("alice"), "conn", "mydb");
    assert_eq!(conn.user, "alice");
    assert_eq!(conn.role, "");
    assert_eq!(conn.current_database, "mydb");
    assert_eq!(conn.databases, vec!["mydb"]);
    assert_eq!(conn.sub, "nodedb · 1 dbs");
}

#[test]
fn describe_connection_trims_the_version() {
    let conn = describe_connection(0, "  1.2 \n", None, None, None, "conn", "mydb");
    assert_eq!(conn.sub, "nodedb · 1.2 · 1 dbs");
    assert_eq!(conn.user, "conn");
}

#[test]
fn disconnect_releases() {
    let mut svc = NodeDbConnectionService::default();
    let saved = &mock::connections()[3];
    let who = result(&["current_user"], vec![vec![s("u")]]);
    let session = svc
        .finish_connect(saved, lazy_client(), Ok(who), 0, "", None)
        .expect("a probe that answered opens the session");
    assert_eq!(session.name, "test-nodedb");
    assert_eq!(session.current_database, "default");
    assert!(svc.is_connected());

    svc.disconnect();
    assert!(!svc.is_connected());
    svc.disconnect();
    assert!(!svc.is_connected());
}

#[test]
fn finish_connect_returns_the_probe_error_unchanged() {
    let mut svc = NodeDbConnectionService::default();
    let saved = &mock::connections()[1];
    let probe = Err(StudioError::from(NodeDbError::node_unreachable("refused")));
    match svc.finish_connect(saved, lazy_client(), probe, 6, "0.3.0", None) {
        Err(e) => {
            assert!(matches!(e, StudioError::Connection(_)));
            assert!(e.is_retriable());
        }
        Ok(_) => panic!("a failed probe must not open a session"),
    }
    assert!(!svc.is_connected());
}

#[test]
fn finish_connect_describes_from_saved_entry() {
    let mut svc = NodeDbConnectionService::default();
    let saved = &mock::connections()[1];
    let empty = result(&[], vec![]);
    let dbs = result(&["name"], vec![vec![s("a")], vec![s("b")], vec![s("c")]]);
    let session = svc
        .finish_connect(saved, lazy_client(), Ok(empty), 2, "0.4.0", Some(dbs))
        .expect("probe answered");
    assert_eq!(session.user, "hatta_admin");
    assert_eq!(session.current_database, "analytics");
    assert_eq!(session.sub, "nodedb · 0.4.0 · 3 dbs");
    assert!(session.capabilities.graph);
    assert!(svc.is_connected());
}
