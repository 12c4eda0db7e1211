//! The registry of saved connections: connect-config only, never a secret.
//!
//! A saved entry carries host, port, auth mode, username, default database,
//! TLS settings and an optional connect-timeout override. The password, API
//! key or OIDC token pairs with the entry only at connect time.

use vstd::prelude::*;

verus! {

/// Reachability/credential status as shown by the card status pill.
#[derive(Debug, Clone, Copy, PartialEq, Eq, Structural)]
pub enum ConnStatus {
    Online,
    ReadOnly,
    Offline,
}

impl ConnStatus {
    /// Whether a card with this status can be connected to at all.
    pub fn is_connectable(self) -> (r: bool)
        ensures
            r == !(self is Offline),
    {
        match self {
            ConnStatus::Offline => false,
            ConnStatus::Online | ConnStatus::ReadOnly => true,
        }
    }
}

/// How the studio authenticates to the server. mTLS is transport config,
/// not an auth mode.
#[derive(Debug, Clone, Copy, PartialEq, Eq, Structural)]
pub enum AuthMode {
    /// No secret: the server trusts the username.
    Trust,
    /// Username and password.
    Password,
    /// API-key token.
    ApiKey,
    /// OIDC bearer token (and an optional provider hint).
    OidcBearer,
}

/// The text of an optional string.
pub open spec fn opt_text(o: Option<String>) -> Option<Seq<char>> {
    match o {
        Some(s) => Some(s@),
        None => None,
    }
}

/// Clones an optional string, keeping its text.
pub fn clone_opt_string(o: &Option<String>) -> (r: Option<String>)
    ensures
        opt_text(r) == opt_text(*o),
{
    match o {
        Some(s) => Some(s.clone()),
        None => None,
    }
}

/// Transport-layer TLS settings for a saved connection.
#[derive(Debug)]
pub struct TlsSettings {
    pub enabled: bool,
    pub ca_cert_path: Option<String>,
    pub server_name: Option<String>,
    pub danger_accept_invalid_certs: bool,
}

/// The abstract value of [`TlsSettings`].
pub struct TlsSettingsView {
    pub enabled: bool,
    pub ca_cert_path: Option<Seq<char>>,
    pub server_name: Option<Seq<char>>,
    pub danger_accept_invalid_certs: bool,
}

impl View for TlsSettings {
    type V = TlsSettingsView;

    open spec fn view(&self) -> TlsSettingsView {
        TlsSettingsView {
            enabled: self.enabled,
            ca_cert_path: opt_text(self.ca_cert_path),
            server_name: opt_text(self.server_name),
            danger_accept_invalid_certs: self.danger_accept_invalid_certs,
        }
    }
}

/// TLS disabled, no CA path, no server name, certificates checked.
pub open spec fn default_tls() -> TlsSettingsView {
    TlsSettingsView {
        enabled: false,
        ca_cert_path: None,
        server_name: None,
        danger_accept_invalid_certs: false,
    }
}

impl Default for TlsSettings {
    /// The default settings: TLS off, nothing else set.
    fn default() -> (r: TlsSettings)
        ensures
            r@ == default_tls(),
    {
        TlsSettings {
            enabled: false,
            ca_cert_path: None,
            server_name: None,
            danger_accept_invalid_certs: false,
        }
    }
}

impl TlsSettings {
    /// A copy with the same settings.
    pub fn duplicate(&self) -> (r: TlsSettings)
        ensures
            r@ == self@,
    {
        TlsSettings {
            enabled: self.enabled,
            ca_cert_path: clone_opt_string(&self.ca_cert_path),
            server_name: clone_opt_string(&self.server_name),
            danger_accept_invalid_certs: self.danger_accept_invalid_certs,
        }
    }
}

/// One entry in the saved-connections registry: connect-config only.
#[derive(Debug)]
pub struct SavedConnection {
    pub name: String,
    /// Meta line on the card.
    pub meta: String,
    /// Secondary chip line.
    pub sub: String,
    pub status: ConnStatus,
    /// Card stats; `None` renders as a placeholder.
    pub db_count: Option<u32>,
    pub ping: Option<String>,
    pub server: String,
    pub host: String,
    /// Native MessagePack port.
    pub port: u16,
    pub auth_mode: AuthMode,
    /// Username for trust/password modes.
    pub username: Option<String>,
    /// Default database to select on connect; `None` means the server default.
    pub default_database: Option<String>,
    pub tls: TlsSettings,
    /// Per-connection connect-timeout override, in seconds.
    pub connect_timeout_secs: Option<u64>,
}

/// The abstract value of [`SavedConnection`].
pub struct SavedConnectionView {
    pub name: Seq<char>,
    pub meta: Seq<char>,
    pub sub: Seq<char>,
    pub status: ConnStatus,
    pub db_count: Option<u32>,
    pub ping: Option<Seq<char>>,
    pub server: Seq<char>,
    pub host: Seq<char>,
    pub port: u16,
    pub auth_mode: AuthMode,
    pub username: Option<Seq<char>>,
    pub default_database: Option<Seq<char>>,
    pub tls: TlsSettingsView,
    pub connect_timeout_secs: Option<u64>,
}

impl View for SavedConnection {
    type V = SavedConnectionView;

    open spec fn view(&self) -> SavedConnectionView {
        SavedConnectionView {
            name: self.name@,
            meta: self.meta@,
            sub: self.sub@,
            status: self.status,
            db_count: self.db_count,
            ping: opt_text(self.ping),
            server: self.server@,
            host: self.host@,
            port: self.port,
            auth_mode: self.auth_mode,
            username: opt_text(self.username),
            default_database: opt_text(self.default_database),
            tls: self.tls@,
            connect_timeout_secs: self.connect_timeout_secs,
        }
    }
}

/// The abstract value of a list of saved connections.
pub open spec fn saved_views(s: Seq<SavedConnection>) -> Seq<SavedConnectionView> {
    s.map_values(|c: SavedConnection| c@)
}

impl SavedConnection {
    /// A copy with the same connect-config and card fields.
    pub fn duplicate(&self) -> (r: SavedConnection)
        ensures
            r@ == self@,
    {
        SavedConnection {
            name: self.name.clone(),
            meta: self.meta.clone(),
            sub: self.sub.clone(),
            status: self.status,
            db_count: self.db_count,
            ping: clone_opt_string(&self.ping),
            server: self.server.clone(),
            host: self.host.clone(),
            port: self.port,
            auth_mode: self.auth_mode,
            username: clone_opt_string(&self.username),
            default_database: clone_opt_string(&self.default_database),
            tls: self.tls.duplicate(),
            connect_timeout_secs: self.connect_timeout_secs,
        }
    }
}

} // verus!
