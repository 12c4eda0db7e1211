use nodedb_studio::auth::AuthInput;
use nodedb_studio::error::{ClientError, StudioError};
use nodedb_studio::mock::{connections, notifications};
use nodedb_studio::models::Notification;
use nodedb_studio::registry::{AuthMode, ConnStatus};
use nodedb_studio::routes::{KeyCommand, KeyInput, Route, key_command, needs_fallback, target_route};
use nodedb_studio::models::NotificationTarget;
use nodedb_studio::session::{Capabilities, Capability};
use nodedb_studio::ui::{
    CardStatus, Popover, connect_ended, connect_started, SwitchPlan, badge_class, build_auth_input, card_pill, card_view,
    connect_failure, count_label, count_stat, group_notifications, mark_all_read, mark_read,
    needs_secret, parse_auth_mode, secret_label, switch_item, switch_plan, switch_targets,
    text_stat, toggled, unread_count, visible,
};

fn all_caps() -> Capabilities {
    Capabilities {
        graph: true, fts: true, spatial: true, streams: true, timeseries: true, sync: true,
        vector: true, cluster: true, readonly: false,
    }
}

fn no_caps() -> Capabilities {
    Capabilities {
        graph: false, fts: false, spatial: false, streams: false, timeseries: false, sync: false,
        vector: true, cluster: false, readonly: false,
    }
}

#[test]
fn toggling_opens_and_closes() {
    assert_eq!(toggled(None, Popover::Connection), Some(Popover::Connection));
    assert_eq!(toggled(Some(Popover::Connection), Popover::Connection), None);
    assert_eq!(toggled(Some(Popover::Database), Popover::Avatar), Some(Popover::Avatar));
    assert_eq!(toggled(toggled(None, Popover::Notifications), Popover::Notifications), None);
}

#[test]
fn auth_mode_parsing() {
    assert_eq!(parse_auth_mode("trust"), AuthMode::Trust);
    assert_eq!(parse_auth_mode("password"), AuthMode::Password);
    assert_eq!(parse_auth_mode("api_key"), AuthMode::ApiKey);
    assert_eq!(parse_auth_mode("oidc_bearer"), AuthMode::OidcBearer);
    assert_eq!(parse_auth_mode("mtls"), AuthMode::Password);
    assert_eq!(parse_auth_mode(""), AuthMode::Password);
}

#[test]
fn secrets_needed_and_labels() {
    assert!(!needs_secret(AuthMode::Trust));
    assert!(needs_secret(AuthMode::Password));
    assert!(needs_secret(AuthMode::ApiKey));
    assert!(needs_secret(AuthMode::OidcBearer));
    assert_eq!(secret_label(AuthMode::Password), "Password");
    assert_eq!(secret_label(AuthMode::ApiKey), "Token");
    assert_eq!(secret_label(AuthMode::OidcBearer), "Token");
    assert_eq!(secret_label(AuthMode::Trust), "");
}

#[test]
fn auth_input_follows_the_saved_mode() {
    let conns = connections();
    match build_auth_input(&conns[0], "pw".to_string(), "ignored".to_string()) {
        AuthInput::Password { username, password } => {
            assert_eq!(username, "root");
            assert_eq!(password.expose(), "pw");
        }
        _ => panic!("expected Password"),
    }
    match build_auth_input(&conns[3], "typed".to_string(), String::new()) {
        AuthInput::Trust { username } => assert_eq!(username, ""),
        _ => panic!("expected Trust"),
    }
    let mut oidc = conns[1].duplicate();
    oidc.auth_mode = AuthMode::OidcBearer;
    match build_auth_input(&oidc, "jwt".to_string(), String::new()) {
        AuthInput::Oidc { token, provider } => {
            assert_eq!(token.expose(), "jwt");
            assert_eq!(provider, None);
        }
        _ => panic!("expected Oidc"),
    }
    match build_auth_input(&oidc, "jwt".to_string(), "okta".to_string()) {
        AuthInput::Oidc { provider, .. } => assert_eq!(provider.as_deref(), Some("okta")),
        _ => panic!("expected Oidc"),
    }
    let mut key = conns[1].duplicate();
    key.auth_mode = AuthMode::ApiKey;
    match build_auth_input(&key, "k".to_string(), String::new()) {
        AuthInput::ApiKey { token } => assert_eq!(token.expose(), "k"),
        _ => panic!("expected ApiKey"),
    }
}

#[test]
fn quick_switch_connects_only_trust_targets() {
    let conns = connections();
    match switch_plan(&conns[3]) {
        SwitchPlan::Connect(AuthInput::Trust { username }) => assert_eq!(username, ""),
        _ => panic!("trust target connects directly"),
    }
    assert!(matches!(switch_plan(&conns[0]), SwitchPlan::ReturnToManager));
}

#[test]
fn switch_list_excludes_current() {
    let conns = connections();
    let others = switch_targets(&conns, "staging-cluster");
    let names: Vec<&str> = others.iter().map(|c| c.name.as_str()).collect();
    assert_eq!(names, vec!["local-nodedb-dev", "prod-replica-eu", "test-nodedb"]);
    assert_eq!(switch_targets(&conns, "nope").len(), 4);
}

#[test]
fn pills_and_stats() {
    assert_eq!(card_pill(ConnStatus::Online), ("pill ok", "online", ""));
    assert_eq!(card_pill(ConnStatus::ReadOnly), ("pill warn", "read-only", ""));
    assert_eq!(card_pill(ConnStatus::Offline), ("pill", "offline", "background:var(--text-tertiary)"));
    assert_eq!(count_stat(Some(28)), "28");
    assert_eq!(count_stat(None), "—");
    assert_eq!(text_stat(&Some("8.4ms".to_string())), "8.4ms");
    assert_eq!(text_stat(&None), "—");
    assert_eq!(switch_item(ConnStatus::Online, &Some("22ms".to_string())), ("ok", "22ms".to_string(), false));
    assert_eq!(switch_item(ConnStatus::Online, &None), ("ok", String::new(), false));
    assert_eq!(switch_item(ConnStatus::ReadOnly, &None), ("warn", "read-only".to_string(), false));
    assert_eq!(switch_item(ConnStatus::Offline, &None), ("off", "offline".to_string(), true));
}

#[test]
fn capability_gating_of_notifications() {
    let ns = notifications();
    let seen = visible(&ns, &no_caps());
    let ids: Vec<&str> = seen.iter().map(|n| n.id.as_str()).collect();
    assert_eq!(ids, vec!["cron-fail", "query-done"]);
    assert_eq!(unread_count(&ns, &no_caps()), 1);
    assert_eq!(visible(&ns, &all_caps()).len(), 6);
    assert_eq!(unread_count(&ns, &all_caps()), 4);
}

#[test]
fn grouping_keeps_first_seen_order() {
    let ns: Vec<Notification> = visible(&notifications(), &all_caps());
    let groups = group_notifications(&ns);
    let names: Vec<&str> = groups.iter().map(|g| g.0.as_str()).collect();
    assert_eq!(names, vec!["Sync conflicts", "Scheduled jobs", "Streams", "Cluster", "Queries"]);
    let sync: Vec<&str> = groups[0].1.iter().map(|n| n.id.as_str()).collect();
    assert_eq!(sync, vec!["sync-conflict-1", "sync-conflict-2"]);
    assert!(group_notifications(&Vec::new()).is_empty());
}

#[test]
fn labels_for_the_bell() {
    assert_eq!(count_label(0), "all clear");
    assert_eq!(count_label(4), "4 unread");
    assert_eq!(badge_class(0), "bell-badge zero");
    assert_eq!(badge_class(3), "bell-badge");
}

#[test]
fn connect_failure_reports_name_text_and_retry() {
    let e = StudioError::from_client(ClientError {
        kind: "node_unreachable".to_string(),
        message: "[NDB-6003] refused".to_string(),
        retriable: true,
    });
    let (name, msg, retriable) = connect_failure("prod", &e);
    assert_eq!(name, "prod");
    assert_eq!(msg, "connection error: [NDB-6003] refused");
    assert!(retriable);
    let (_, msg, retriable) = connect_failure("x", &StudioError::NotConnected);
    assert_eq!(msg, "not connected to a database");
    assert!(!retriable);
}

#[test]
fn routes_keys_and_capabilities() {
    assert_eq!(Route::Explorer.nav_key(), "explorer");
    assert_eq!(Route::Streams { tab: "cron".to_string() }.nav_key(), "streams");
    assert_eq!(Route::Admin { tab: "cluster".to_string() }.nav_key(), "admin");
    assert_eq!(Route::GraphExplorer.nav_key(), "graph");
    assert_eq!(Route::GraphExplorer.required_cap(), Some(Capability::Graph));
    assert_eq!(Route::Sync.required_cap(), Some(Capability::Sync));
    assert_eq!(Route::Query.required_cap(), None);
    assert_eq!(Route::Admin { tab: "x".to_string() }.required_cap(), None);
}

#[test]
fn notification_targets_route() {
    assert!(matches!(target_route(NotificationTarget::Sync), Route::Sync));
    match target_route(NotificationTarget::StreamsCron) {
        Route::Streams { tab } => assert_eq!(tab, "cron"),
        _ => panic!("expected Streams"),
    }
    match target_route(NotificationTarget::StreamsTopics) {
        Route::Streams { tab } => assert_eq!(tab, "topics"),
        _ => panic!("expected Streams"),
    }
    match target_route(NotificationTarget::Admin) {
        Route::Admin { tab } => assert_eq!(tab, "cluster"),
        _ => panic!("expected Admin"),
    }
    assert!(matches!(target_route(NotificationTarget::Query), Route::Query));
}

#[test]
fn views_fall_back_without_their_capability() {
    assert!(needs_fallback(&Route::GraphExplorer, Some(no_caps())));
    assert!(!needs_fallback(&Route::GraphExplorer, Some(all_caps())));
    assert!(!needs_fallback(&Route::VectorSpace, Some(no_caps())));
    assert!(needs_fallback(&Route::Sync, None));
    assert!(!needs_fallback(&Route::Explorer, None));
}

#[test]
fn shortcuts() {
    assert_eq!(key_command(&KeyInput::Character("k".to_string()), true), Some(KeyCommand::OpenPalette));
    assert_eq!(key_command(&KeyInput::Character("d".to_string()), true), Some(KeyCommand::Disconnect));
    assert_eq!(key_command(&KeyInput::Character(",".to_string()), true), Some(KeyCommand::OpenPreferences));
    assert_eq!(key_command(&KeyInput::Character("k".to_string()), false), None);
    assert_eq!(key_command(&KeyInput::Escape, false), Some(KeyCommand::CloseOverlays));
    assert_eq!(key_command(&KeyInput::Other, true), None);
    assert_eq!(key_command(&KeyInput::Character("x".to_string()), true), None);
}

#[test]
fn mark_all_read_clears_the_badge() {
    let mut ns = notifications();
    let ids_before: Vec<String> = ns.iter().map(|n| n.id.clone()).collect();
    assert_eq!(unread_count(&ns, &all_caps()), 4);
    mark_all_read(&mut ns);
    assert_eq!(unread_count(&ns, &all_caps()), 0);
    assert_eq!(unread_count(&ns, &no_caps()), 0);
    assert!(ns.iter().all(|n| !n.unread));
    let ids_after: Vec<String> = ns.iter().map(|n| n.id.clone()).collect();
    assert_eq!(ids_before, ids_after);
    assert_eq!(count_label(unread_count(&ns, &all_caps())), "all clear");
}

#[test]
fn mark_read_reads_only_the_clicked_entry() {
    let mut ns = notifications();
    let before: Vec<bool> = ns.iter().map(|n| n.unread).collect();
    assert!(before[0]);
    mark_read(&mut ns, "sync-conflict-1");
    assert!(!ns[0].unread);
    for k in 1..ns.len() {
        assert_eq!(ns[k].unread, before[k]);
    }
    assert_eq!(unread_count(&ns, &all_caps()), 3);
    mark_read(&mut ns, "no-such-entry");
    assert_eq!(unread_count(&ns, &all_caps()), 3);
}

#[test]
fn card_decisions() {
    let conns = connections();
    let online = &conns[0];
    let offline = &conns[3];
    let idle = card_view(online, None, None);
    assert!(!idle.disabled);
    assert!(idle.show_secret);
    assert!(!idle.show_provider);
    assert!(matches!(idle.status, CardStatus::Idle));

    let busy = card_view(online, Some(online.name.as_str()), None);
    assert!(busy.disabled);
    assert!(matches!(busy.status, CardStatus::Connecting));

    let other_busy = card_view(online, Some("someone-else"), None);
    assert!(!other_busy.disabled);

    let failure = (online.name.clone(), "auth failed".to_string(), true);
    match card_view(online, None, Some(&failure)).status {
        CardStatus::Failed { message, retriable } => {
            assert_eq!(message, "auth failed");
            assert!(retriable);
        }
        _ => panic!("expected a failure"),
    }
    let elsewhere = ("someone-else".to_string(), "auth failed".to_string(), true);
    assert!(matches!(card_view(online, None, Some(&elsewhere)).status, CardStatus::Idle));
    assert!(matches!(
        card_view(online, Some(online.name.as_str()), Some(&failure)).status,
        CardStatus::Connecting
    ));

    let off = card_view(offline, None, None);
    assert!(off.disabled);
    assert!(!off.show_secret);

    let mut oidc = online.duplicate();
    oidc.auth_mode = AuthMode::OidcBearer;
    let v = card_view(&oidc, None, None);
    assert!(v.show_secret && v.show_provider);
    let mut trust = online.duplicate();
    trust.auth_mode = AuthMode::Trust;
    assert!(!card_view(&trust, None, None).show_secret);
}

#[test]
fn connect_lifecycle_on_a_card() {
    let started = connect_started("prod");
    assert_eq!(started.connecting.as_deref(), Some("prod"));
    assert!(started.failure.is_none());

    let session = nodedb_studio::service::MockConnectionService.connect("local-nodedb-dev").unwrap();
    let (state, active) = connect_ended("local-nodedb-dev", Ok(session));
    assert!(state.connecting.is_none());
    assert!(state.failure.is_none());
    assert_eq!(active.unwrap().name, "local-nodedb-dev");

    let e = StudioError::from_client(ClientError {
        kind: "authorization_denied".to_string(),
        message: "[NDB-2001] denied".to_string(),
        retriable: false,
    });
    let (state, active) = connect_ended("prod", Err(e));
    assert!(state.connecting.is_none());
    assert!(active.is_none());
    let (name, msg, retriable) = state.failure.unwrap();
    assert_eq!(name, "prod");
    assert_eq!(msg, "authentication error: [NDB-2001] denied");
    assert!(!retriable);
}
