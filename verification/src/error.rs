//! The studio's error model: client errors sorted into categories that the
//! views branch on, and whether a failed call may be retried.

use vstd::prelude::*;
use nodedb_client::NodeDbError;
use vstd::string::StringExecFns;
use crate::text::{same_text, text_in};

verus! {

#[verifier::external_type_specification]
#[verifier::external_body]
pub struct ExNodeDbError(NodeDbError);

/// The JSON text that `serde_json::to_string` writes for a NodeDB error's
/// details: an object whose first member is the `kind` tag.
pub uninterp spec fn error_details_json(e: NodeDbError) -> Seq<char>;

/// The displayed text of a NodeDB error (`[code] message`).
pub uninterp spec fn error_text(e: NodeDbError) -> Seq<char>;

/// The kind of a NodeDB error: the snake-case name of its details variant,
/// read from the serialized details.
pub open spec fn error_kind(e: NodeDbError) -> Seq<char> {
    kind_of_json(error_details_json(e))
}

/// The kinds the NodeDB client reports as retriable.
pub open spec fn retriable_kinds() -> Seq<Seq<char>> {
    seq![
        "write_conflict"@,
        "deadline_exceeded"@,
        "no_leader"@,
        "not_leader"@,
        "migration_in_progress"@,
        "node_unreachable"@,
        "sync_connection_failed"@,
        "bridge"@,
        "memory_exhausted"@,
    ]
}

/// Calls `serde_json::to_string` on `NodeDbError::details`; the text depends
/// on the error alone.
#[verifier::external_body]
fn details_json(e: &NodeDbError) -> (r: String)
    ensures
        r@ == error_details_json(*e),
{
    serde_json::to_string(e.details()).unwrap_or_default()
}

/// Calls `NodeDbError::is_retriable`, which answers true exactly for the
/// details variants whose kind tags are `retriable_kinds()`.
#[verifier::external_body]
fn client_retriable(e: &NodeDbError) -> (r: bool)
    ensures
        r == retriable_kinds().contains(error_kind(*e)),
{
    e.is_retriable()
}

/// Calls `NodeDbError`'s `Display` (`[code] message`).
#[verifier::external_body]
fn client_message(e: &NodeDbError) -> (r: String)
    ensures
        r@ == error_text(*e),
{
    e.to_string()
}

/// The opening of a serialized error-details value, up to its kind name.
pub open spec fn kind_prefix() -> Seq<char> {
    "{\"kind\":\""@
}

/// The kind name in serialized error details: the text after the opening
/// `{"kind":"` up to the next quote, or empty when there is none.
pub open spec fn kind_of_json(s: Seq<char>) -> Seq<char> {
    let p = kind_prefix();
    if p.len() <= s.len() && s.subrange(0, p.len() as int) == p {
        let rest = s.subrange(p.len() as int, s.len() as int);
        match rest.index_of_first('"') {
            Some(i) => rest.subrange(0, i),
            None => Seq::empty(),
        }
    } else {
        Seq::empty()
    }
}

/// Reads the kind name out of serialized error details.
pub fn kind_from_json(json: &str) -> (r: String)
    ensures
        r@ == kind_of_json(json@),
{
    let prefix = "{\"kind\":\"";
    let plen = prefix.unicode_len();
    let len = json.unicode_len();
    if plen > len {
        return String::new();
    }
    if !same_text(json.substring_char(0, plen), prefix) {
        return String::new();
    }
    assert(prefix@ == kind_prefix());
    let ghost rest = json@.subrange(plen as int, len as int);
    let mut i: usize = plen;
    while i < len
        invariant
            plen <= i <= len,
            len == json@.len(),
            rest == json@.subrange(plen as int, len as int),
            plen == kind_prefix().len(),
            json@.subrange(0, plen as int) == kind_prefix(),
            forall|j: int| 0 <= j < i - plen ==> rest[j] != '"',
        decreases len - i,
    {
        if json.get_char(i) == '"' {
            proof {
                rest.index_of_first_ensures('"');
                assert(rest[i - plen] == '"');
                assert(rest.contains('"'));
                let k = rest.index_of_first('"')->0;
                assert(k == i - plen);
                assert(json@.subrange(0, plen as int) == kind_prefix());
            }
            let r = json.substring_char(plen, i).to_owned();
            assert(r@ =~= rest.subrange(0, i - plen));
            return r;
        }
        i = i + 1;
    }
    proof {
        rest.index_of_first_ensures('"');
    }
    String::new()
}

/// What the studio keeps of a client error: the details kind name, the
/// displayed text, and whether the client may retry.
#[derive(Debug)]
pub struct ClientError {
    pub kind: String,
    pub message: String,
    pub retriable: bool,
}

impl ClientError {
    /// Reads the kind, text and retry flag of a client error.
    pub fn of(e: &NodeDbError) -> (r: ClientError)
        ensures
            r.kind@ == error_kind(*e),
            r.message@ == error_text(*e),
            r.retriable == retriable_kinds().contains(error_kind(*e)),
    {
        let json = details_json(e);
        ClientError {
            kind: kind_from_json(json.as_str()),
            message: client_message(e),
            retriable: client_retriable(e),
        }
    }
}

/// The category a view branches on.
#[derive(Debug, Clone, Copy, PartialEq, Eq, Structural)]
pub enum ErrorCategory {
    Connection,
    Auth,
    NotFound,
    Conflict,
    ReadOnly,
    Setup,
    Server,
    NotConnected,
}

/// Kinds that mean the server could not be reached or is not serving.
pub open spec fn connection_kinds() -> Seq<Seq<char>> {
    seq![
        "handshake_failed"@,
        "sync_connection_failed"@,
        "node_unreachable"@,
        "no_leader"@,
        "not_leader"@,
        "migration_in_progress"@,
        "server_overload"@,
        "memory_exhausted"@,
    ]
}

/// Kinds that mean the credentials were refused or expired.
pub open spec fn auth_kinds() -> Seq<Seq<char>> {
    seq!["authorization_denied"@, "auth_expired"@]
}

/// Kinds that mean the collection or document is not there.
pub open spec fn not_found_kinds() -> Seq<Seq<char>> {
    seq![
        "collection_not_found"@,
        "document_not_found"@,
        "collection_draining"@,
        "collection_deactivated"@,
    ]
}

/// Kinds that mean the write conflicts with data or constraints.
pub open spec fn conflict_kinds() -> Seq<Seq<char>> {
    seq![
        "write_conflict"@,
        "constraint_violation"@,
        "prevalidation_rejected"@,
        "balance_violation"@,
        "state_transition_violation"@,
        "transition_check_violation"@,
        "type_guard_violation"@,
        "insufficient_balance"@,
        "overflow"@,
        "type_mismatch"@,
    ]
}

/// Kinds that mean the target refuses writes.
pub open spec fn read_only_kinds() -> Seq<Seq<char>> {
    seq![
        "mirror_read_only"@,
        "append_only_violation"@,
        "period_locked"@,
        "legal_hold_active"@,
        "retention_violation"@,
        "mirror_not_promoted"@,
    ]
}

/// Kinds that mean the request or the configuration is wrong.
pub open spec fn setup_kinds() -> Seq<Seq<char>> {
    seq!["config"@, "bad_request"@, "sql_not_enabled"@]
}

/// The category of a client error kind; every other kind is a server error.
pub open spec fn category_of(kind: Seq<char>) -> ErrorCategory {
    if connection_kinds().contains(kind) {
        ErrorCategory::Connection
    } else if auth_kinds().contains(kind) {
        ErrorCategory::Auth
    } else if not_found_kinds().contains(kind) {
        ErrorCategory::NotFound
    } else if conflict_kinds().contains(kind) {
        ErrorCategory::Conflict
    } else if read_only_kinds().contains(kind) {
        ErrorCategory::ReadOnly
    } else if setup_kinds().contains(kind) {
        ErrorCategory::Setup
    } else {
        ErrorCategory::Server
    }
}

/// The category of a client error kind.
pub fn category_of_kind(kind: &str) -> (r: ErrorCategory)
    ensures
        r == category_of(kind@),
{
    let connection: [&str; 8] = [
        "handshake_failed",
        "sync_connection_failed",
        "node_unreachable",
        "no_leader",
        "not_leader",
        "migration_in_progress",
        "server_overload",
        "memory_exhausted",
    ];
    let auth: [&str; 2] = ["authorization_denied", "auth_expired"];
    let not_found: [&str; 4] = [
        "collection_not_found",
        "document_not_found",
        "collection_draining",
        "collection_deactivated",
    ];
    let conflict: [&str; 10] = [
        "write_conflict",
        "constraint_violation",
        "prevalidation_rejected",
        "balance_violation",
        "state_transition_violation",
        "transition_check_violation",
        "type_guard_violation",
        "insufficient_balance",
        "overflow",
        "type_mismatch",
    ];
    let read_only: [&str; 6] = [
        "mirror_read_only",
        "append_only_violation",
        "period_locked",
        "legal_hold_active",
        "retention_violation",
        "mirror_not_promoted",
    ];
    let setup: [&str; 3] = ["config", "bad_request", "sql_not_enabled"];
    assert(connection@.map_values(|s: &str| s@) =~= connection_kinds());
    assert(auth@.map_values(|s: &str| s@) =~= auth_kinds());
    assert(not_found@.map_values(|s: &str| s@) =~= not_found_kinds());
    assert(conflict@.map_values(|s: &str| s@) =~= conflict_kinds());
    assert(read_only@.map_values(|s: &str| s@) =~= read_only_kinds());
    assert(setup@.map_values(|s: &str| s@) =~= setup_kinds());
    if text_in(kind, connection.as_slice()) {
        ErrorCategory::Connection
    } else if text_in(kind, auth.as_slice()) {
        ErrorCategory::Auth
    } else if text_in(kind, not_found.as_slice()) {
        ErrorCategory::NotFound
    } else if text_in(kind, conflict.as_slice()) {
        ErrorCategory::Conflict
    } else if text_in(kind, read_only.as_slice()) {
        ErrorCategory::ReadOnly
    } else if text_in(kind, setup.as_slice()) {
        ErrorCategory::Setup
    } else {
        ErrorCategory::Server
    }
}

/// The studio's error: a categorized client error, or no session at all.
#[derive(Debug)]
pub enum StudioError {
    Connection(ClientError),
    Auth(ClientError),
    NotFound(ClientError),
    Conflict(ClientError),
    ReadOnly(ClientError),
    Setup(ClientError),
    Server(ClientError),
    NotConnected,
}

/// The error a client error becomes: its kind picks the category.
pub open spec fn classify(c: ClientError) -> StudioError {
    match category_of(c.kind@) {
        ErrorCategory::Connection => StudioError::Connection(c),
        ErrorCategory::Auth => StudioError::Auth(c),
        ErrorCategory::NotFound => StudioError::NotFound(c),
        ErrorCategory::Conflict => StudioError::Conflict(c),
        ErrorCategory::ReadOnly => StudioError::ReadOnly(c),
        ErrorCategory::Setup => StudioError::Setup(c),
        _ => StudioError::Server(c),
    }
}

impl StudioError {
    /// The category of this error.
    pub open spec fn spec_category(&self) -> ErrorCategory {
        match self {
            StudioError::Connection(_) => ErrorCategory::Connection,
            StudioError::Auth(_) => ErrorCategory::Auth,
            StudioError::NotFound(_) => ErrorCategory::NotFound,
            StudioError::Conflict(_) => ErrorCategory::Conflict,
            StudioError::ReadOnly(_) => ErrorCategory::ReadOnly,
            StudioError::Setup(_) => ErrorCategory::Setup,
            StudioError::Server(_) => ErrorCategory::Server,
            StudioError::NotConnected => ErrorCategory::NotConnected,
        }
    }

    /// Whether a Retry is offered: the client's own answer; a missing
    /// session is never retriable.
    pub open spec fn spec_retriable(&self) -> bool {
        match self {
            StudioError::NotConnected => false,
            StudioError::Connection(c) => c.retriable,
            StudioError::Auth(c) => c.retriable,
            StudioError::NotFound(c) => c.retriable,
            StudioError::Conflict(c) => c.retriable,
            StudioError::ReadOnly(c) => c.retriable,
            StudioError::Setup(c) => c.retriable,
            StudioError::Server(c) => c.retriable,
        }
    }

    /// The category of this error.
    pub fn category(&self) -> (r: ErrorCategory)
        ensures
            r == self.spec_category(),
    {
        match self {
            StudioError::Connection(_) => ErrorCategory::Connection,
            StudioError::Auth(_) => ErrorCategory::Auth,
            StudioError::NotFound(_) => ErrorCategory::NotFound,
            StudioError::Conflict(_) => ErrorCategory::Conflict,
            StudioError::ReadOnly(_) => ErrorCategory::ReadOnly,
            StudioError::Setup(_) => ErrorCategory::Setup,
            StudioError::Server(_) => ErrorCategory::Server,
            StudioError::NotConnected => ErrorCategory::NotConnected,
        }
    }

    /// Drives the Retry affordance.
    pub fn is_retriable(&self) -> (r: bool)
        ensures
            r == self.spec_retriable(),
    {
        match self {
            StudioError::NotConnected => false,
            StudioError::Connection(c)
            | StudioError::Auth(c)
            | StudioError::NotFound(c)
            | StudioError::Conflict(c)
            | StudioError::ReadOnly(c)
            | StudioError::Setup(c)
            | StudioError::Server(c) => c.retriable,
        }
    }

    /// Sorts a client error into its category.
    pub fn from_client(c: ClientError) -> (r: StudioError)
        ensures
            r == classify(c),
    {
        let category = category_of_kind(c.kind.as_str());
        match category {
            ErrorCategory::Connection => StudioError::Connection(c),
            ErrorCategory::Auth => StudioError::Auth(c),
            ErrorCategory::NotFound => StudioError::NotFound(c),
            ErrorCategory::Conflict => StudioError::Conflict(c),
            ErrorCategory::ReadOnly => StudioError::ReadOnly(c),
            ErrorCategory::Setup => StudioError::Setup(c),
            _ => StudioError::Server(c),
        }
    }

    /// The client error this error carries; none for `NotConnected`.
    pub open spec fn carried(&self) -> Option<ClientError> {
        match self {
            StudioError::Connection(c) => Some(*c),
            StudioError::Auth(c) => Some(*c),
            StudioError::NotFound(c) => Some(*c),
            StudioError::Conflict(c) => Some(*c),
            StudioError::ReadOnly(c) => Some(*c),
            StudioError::Setup(c) => Some(*c),
            StudioError::Server(c) => Some(*c),
            StudioError::NotConnected => None,
        }
    }

    /// Sorts an error of the NodeDB client into its category: the result
    /// carries the error's kind, text and retry flag, under the category that
    /// its kind picks. A client error never becomes `NotConnected`.
    pub fn from(e: NodeDbError) -> (r: StudioError)
        ensures
            r.carried() matches Some(c) && r == classify(c)
                && c.kind@ == error_kind(e)
                && c.message@ == error_text(e)
                && c.retriable == retriable_kinds().contains(error_kind(e)),
            r.spec_category() == category_of(error_kind(e)),
            r.spec_retriable() == retriable_kinds().contains(error_kind(e)),
            !(r is NotConnected),
    {
        let c = ClientError::of(&e);
        let ghost read = c;
        let r = StudioError::from_client(c);
        assert(r.carried() == Some(read));
        r
    }

    /// The headline of each category.
    pub open spec fn spec_heading(&self) -> Seq<char> {
        match self {
            StudioError::Connection(_) => "connection error: "@,
            StudioError::Auth(_) => "authentication error: "@,
            StudioError::NotFound(_) => "not found: "@,
            StudioError::Conflict(_) => "conflict: "@,
            StudioError::ReadOnly(_) => "read-only: "@,
            StudioError::Setup(_) => "setup error: "@,
            StudioError::Server(_) => "server error: "@,
            StudioError::NotConnected => "not connected to a database"@,
        }
    }

    /// The displayed text: the category headline followed by the client's text.
    pub open spec fn spec_message(&self) -> Seq<char> {
        match self {
            StudioError::NotConnected => self.spec_heading(),
            StudioError::Connection(c) => self.spec_heading() + c.message@,
            StudioError::Auth(c) => self.spec_heading() + c.message@,
            StudioError::NotFound(c) => self.spec_heading() + c.message@,
            StudioError::Conflict(c) => self.spec_heading() + c.message@,
            StudioError::ReadOnly(c) => self.spec_heading() + c.message@,
            StudioError::Setup(c) => self.spec_heading() + c.message@,
            StudioError::Server(c) => self.spec_heading() + c.message@,
        }
    }

    /// The text a view shows for this error.
    pub fn message(&self) -> (r: String)
        ensures
            r@ == self.spec_message(),
    {
        match self {
            StudioError::NotConnected => "not connected to a database".to_owned(),
            StudioError::Connection(c) => "connection error: ".to_owned().concat(c.message.as_str()),
            StudioError::Auth(c) => "authentication error: ".to_owned().concat(c.message.as_str()),
            StudioError::NotFound(c) => "not found: ".to_owned().concat(c.message.as_str()),
            StudioError::Conflict(c) => "conflict: ".to_owned().concat(c.message.as_str()),
            StudioError::ReadOnly(c) => "read-only: ".to_owned().concat(c.message.as_str()),
            StudioError::Setup(c) => "setup error: ".to_owned().concat(c.message.as_str()),
            StudioError::Server(c) => "server error: ".to_owned().concat(c.message.as_str()),
        }
    }
}

} // verus!
