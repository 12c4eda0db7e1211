use nodedb_client::NodeDbError;
use nodedb_studio::error::{ClientError, ErrorCategory, StudioError, category_of_kind, kind_from_json};

#[test]
fn maps_collection_not_found_to_not_found() {
    assert!(matches!(
        StudioError::from(NodeDbError::collection_not_found("users")),
        StudioError::NotFound(_)
    ));
}

#[test]
fn maps_document_not_found_to_not_found() {
    assert!(matches!(
        StudioError::from(NodeDbError::document_not_found("c", "id")),
        StudioError::NotFound(_)
    ));
}

#[test]
fn maps_write_conflict_to_conflict_and_retriable() {
    let s = StudioError::from(NodeDbError::write_conflict("orders", "id1"));
    assert!(matches!(s, StudioError::Conflict(_)));
    assert!(s.is_retriable());
}

#[test]
fn maps_authorization_denied_to_auth() {
    assert!(matches!(
        StudioError::from(NodeDbError::authorization_denied("res")),
        StudioError::Auth(_)
    ));
}

#[test]
fn maps_auth_expired_to_auth() {
    assert!(matches!(
        StudioError::from(NodeDbError::auth_expired("x")),
        StudioError::Auth(_)
    ));
}

#[test]
fn maps_mirror_read_only_to_read_only() {
    assert!(matches!(
        StudioError::from(NodeDbError::mirror_read_only("db")),
        StudioError::ReadOnly(_)
    ));
}

#[test]
fn maps_bad_request_to_setup() {
    assert!(matches!(
        StudioError::from(NodeDbError::bad_request("x")),
        StudioError::Setup(_)
    ));
}

#[test]
fn maps_config_to_setup() {
    assert!(matches!(
        StudioError::from(NodeDbError::config("x")),
        StudioError::Setup(_)
    ));
}

#[test]
fn maps_node_unreachable_to_connection_and_retriable() {
    let s = StudioError::from(NodeDbError::node_unreachable("x"));
    assert!(matches!(s, StudioError::Connection(_)));
    assert!(s.is_retriable());
}

#[test]
fn maps_internal_to_server() {
    assert!(matches!(
        StudioError::from(NodeDbError::internal("x")),
        StudioError::Server(_)
    ));
}

#[test]
fn maps_storage_to_server() {
    assert!(matches!(
        StudioError::from(NodeDbError::storage("x")),
        StudioError::Server(_)
    ));
}

#[test]
fn not_connected_is_not_retriable() {
    assert!(!StudioError::NotConnected.is_retriable());
}

#[test]
fn connect_error_maps_to_studio_error() {
    let conn: StudioError = StudioError::from(NodeDbError::node_unreachable("refused"));
    assert!(matches!(conn, StudioError::Connection(_)));
    assert!(conn.is_retriable());

    let auth: StudioError = StudioError::from(NodeDbError::authorization_denied("bad creds"));
    assert!(matches!(auth, StudioError::Auth(_)));
    assert!(!auth.is_retriable());
}

#[test]
fn kind_is_read_from_serialized_details() {
    assert_eq!(kind_from_json(r#"{"kind":"write_conflict","collection":"o"}"#), "write_conflict");
    assert_eq!(kind_from_json(r#"{"kind":"no_leader"}"#), "no_leader");
    assert_eq!(kind_from_json(r#"{"code":1}"#), "");
    assert_eq!(kind_from_json(r#"{"kind":"unterminated"#), "");
    assert_eq!(kind_from_json(""), "");
}

#[test]
fn client_error_reads_kind_text_and_retry_flag() {
    let c = ClientError::of(&NodeDbError::write_conflict("orders", "id1"));
    assert_eq!(c.kind, "write_conflict");
    assert!(c.retriable);
    assert!(!c.message.is_empty());
}

#[test]
fn every_listed_kind_has_its_category() {
    for k in ["handshake_failed", "sync_connection_failed", "node_unreachable", "no_leader",
        "not_leader", "migration_in_progress", "server_overload", "memory_exhausted"] {
        assert_eq!(category_of_kind(k), ErrorCategory::Connection, "{k}");
    }
    for k in ["authorization_denied", "auth_expired"] {
        assert_eq!(category_of_kind(k), ErrorCategory::Auth, "{k}");
    }
    for k in ["collection_not_found", "document_not_found", "collection_draining",
        "collection_deactivated"] {
        assert_eq!(category_of_kind(k), ErrorCategory::NotFound, "{k}");
    }
    for k in ["write_conflict", "constraint_violation", "prevalidation_rejected",
        "balance_violation", "state_transition_violation", "transition_check_violation",
        "type_guard_violation", "insufficient_balance", "overflow", "type_mismatch"] {
        assert_eq!(category_of_kind(k), ErrorCategory::Conflict, "{k}");
    }
    for k in ["mirror_read_only", "append_only_violation", "period_locked", "legal_hold_active",
        "retention_violation", "mirror_not_promoted"] {
        assert_eq!(category_of_kind(k), ErrorCategory::ReadOnly, "{k}");
    }
    for k in ["config", "bad_request", "sql_not_enabled"] {
        assert_eq!(category_of_kind(k), ErrorCategory::Setup, "{k}");
    }
    for k in ["internal", "storage", "wal", "", "authentication_failed"] {
        assert_eq!(category_of_kind(k), ErrorCategory::Server, "{k}");
    }
}

#[test]
fn from_client_keeps_the_client_error() {
    let c = ClientError { kind: "period_locked".to_string(), message: "m".to_string(), retriable: true };
    match StudioError::from_client(c) {
        StudioError::ReadOnly(inner) => {
            assert_eq!(inner.kind, "period_locked");
            assert_eq!(inner.message, "m");
            assert!(inner.retriable);
        }
        _ => panic!("expected ReadOnly"),
    }
}

#[test]
fn message_prefixes_the_category_heading() {
    let c = ClientError { kind: "overflow".to_string(), message: "[NDB-1021] too big".to_string(), retriable: false };
    assert_eq!(StudioError::from_client(c).message(), "conflict: [NDB-1021] too big");
    assert_eq!(StudioError::NotConnected.message(), "not connected to a database");
    assert_eq!(StudioError::NotConnected.category(), ErrorCategory::NotConnected);
}

#[test]
fn errors_of_one_kind_share_a_category() {
    let a = StudioError::from(NodeDbError::write_conflict("orders", "id1"));
    let b = StudioError::from(NodeDbError::write_conflict("users", "id9"));
    assert_eq!(a.category(), b.category());
    assert_eq!(a.is_retriable(), b.is_retriable());
    let c = ClientError::of(&NodeDbError::write_conflict("orders", "id1"));
    assert_eq!(c.kind, "write_conflict");
    assert!(c.retriable);
    assert_eq!(StudioError::from_client(c).category(), ErrorCategory::Conflict);
}
