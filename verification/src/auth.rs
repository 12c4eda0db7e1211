//! In-session secrets and the per-connect auth input.
//!
//! The password, API key or OIDC token is held only in [`Secret`], whose one
//! printable form is the redacted `Secret(***)`. The raw text is read only by
//! [`Secret::expose`], when the client configuration is built.

use vstd::prelude::*;
use nodedb_client::native::connection::TlsConfig;
use nodedb_client::native::pool::PoolConfig;
use nodedb_client::{ConnectionBuilder, NativeClient};
use nodedb_types::protocol::AuthMethod;
use vstd::string::StringExecFns;
use crate::registry::{TlsSettings, TlsSettingsView, default_tls, opt_text};
use crate::text::{decimal, decimal_text};

verus! {

/// A redacting wrapper around an in-session secret.
pub struct Secret(String);

impl View for Secret {
    type V = Seq<char>;

    closed spec fn view(&self) -> Seq<char> {
        self.0@
    }
}

impl Secret {
    /// Wrap an in-session secret.
    pub fn new(s: &str) -> (r: Secret)
        ensures
            r@ == s@,
    {
        Secret(s.to_owned())
    }

    /// Read the raw secret.
    pub fn expose(&self) -> (r: &str)
        ensures
            r@ == self@,
    {
        self.0.as_str()
    }

    /// The printable form of a secret: always `Secret(***)`, whatever it holds.
    pub fn debug_repr(&self) -> (r: String)
        ensures
            r@ == "Secret(***)"@,
    {
        "Secret(***)".to_owned()
    }
}

/// The auth input for one connect attempt: the mode and the secret it needs.
pub enum AuthInput {
    /// No secret: the server trusts the username.
    Trust { username: String },
    /// Username and password.
    Password { username: String, password: Secret },
    /// API-key token.
    ApiKey { token: Secret },
    /// OIDC bearer token and an optional provider hint.
    Oidc { token: Secret, provider: Option<String> },
}

/// The abstract value of an [`AuthInput`].
pub enum AuthInputView {
    Trust { username: Seq<char> },
    Password { username: Seq<char>, password: Seq<char> },
    ApiKey { token: Seq<char> },
    Oidc { token: Seq<char>, provider: Option<Seq<char>> },
}

impl View for AuthInput {
    type V = AuthInputView;

    open spec fn view(&self) -> AuthInputView {
        match self {
            AuthInput::Trust { username } => AuthInputView::Trust { username: username@ },
            AuthInput::Password { username, password } => AuthInputView::Password {
                username: username@,
                password: password@,
            },
            AuthInput::ApiKey { token } => AuthInputView::ApiKey { token: token@ },
            AuthInput::Oidc { token, provider } => AuthInputView::Oidc {
                token: token@,
                provider: opt_text(*provider),
            },
        }
    }
}

#[verifier::external_type_specification]
#[verifier::external_body]
pub struct ExNativeClient(NativeClient);

#[verifier::external_type_specification]
#[verifier::external_body]
pub struct ExConnectionBuilder(ConnectionBuilder);

#[verifier::external_type_specification]
#[verifier::external_body]
pub struct ExPoolConfig(PoolConfig);

#[verifier::external_type_specification]
#[verifier::external_body]
pub struct ExTlsConfig(TlsConfig);

/// Default connect timeout, in seconds, when a saved connection has no
/// override; the client's own default.
pub const DEFAULT_CONNECT_TIMEOUT_SECS: u64 = 5;

/// The client's default pool size (`PoolConfig::default()`).
pub const DEFAULT_POOL_SIZE: u64 = 10;

/// The client's default idle timeout in seconds (`PoolConfig::default()`).
pub const DEFAULT_IDLE_TIMEOUT_SECS: u64 = 300;

/// The credentials a client authenticates with.
pub enum Credentials {
    Trust { username: Seq<char> },
    Password { username: Seq<char>, password: Seq<char> },
    ApiKey { token: Seq<char> },
    OidcBearer { token: Seq<char>, provider: Option<Seq<char>> },
}

/// What a client is configured with: address, database, connect timeout in
/// seconds, pool size, idle timeout in seconds, TLS settings, credentials.
pub struct ClientPlan {
    pub addr: Seq<char>,
    pub database: Option<Seq<char>>,
    pub connect_timeout_secs: u64,
    /// The most connections the pool opens.
    pub max_size: nat,
    /// How long, in seconds, an idle pooled connection is kept.
    pub idle_timeout_secs: nat,
    pub tls: TlsSettingsView,
    pub credentials: Credentials,
}

/// What a `ConnectionBuilder` holds: each option, when it was set.
pub struct BuilderPlan {
    pub addr: Option<Seq<char>>,
    pub username: Option<Seq<char>>,
    pub password: Option<Seq<char>>,
    pub api_key: Option<Seq<char>>,
    pub database: Option<Seq<char>>,
    pub connect_timeout_secs: Option<u64>,
    pub max_connections: Option<nat>,
    pub idle_timeout_secs: Option<nat>,
    pub tls: Option<TlsSettingsView>,
}

/// The client `ConnectionBuilder::build` configures from a builder: the
/// address (`127.0.0.1:6433` when unset); credentials from the API key if
/// set, else the password with the username (`admin` when unset), else trust
/// for the username (`admin` when unset); the connect timeout (5 s when
/// unset); the pool size (10 when unset); the idle timeout (300 s when
/// unset); TLS (off when unset).
pub open spec fn built_plan(b: BuilderPlan) -> ClientPlan {
    let username = match b.username {
        Some(u) => u,
        None => "admin"@,
    };
    ClientPlan {
        addr: match b.addr {
            Some(a) => a,
            None => "127.0.0.1:6433"@,
        },
        database: b.database,
        connect_timeout_secs: match b.connect_timeout_secs {
            Some(s) => s,
            None => DEFAULT_CONNECT_TIMEOUT_SECS,
        },
        max_size: match b.max_connections {
            Some(n) => n,
            None => DEFAULT_POOL_SIZE as nat,
        },
        idle_timeout_secs: match b.idle_timeout_secs {
            Some(s) => s,
            None => DEFAULT_IDLE_TIMEOUT_SECS as nat,
        },
        tls: match b.tls {
            Some(t) => t,
            None => default_tls(),
        },
        credentials: match b.api_key {
            Some(token) => Credentials::ApiKey { token },
            None => match b.password {
                Some(password) => Credentials::Password { username, password },
                None => Credentials::Trust { username },
            },
        },
    }
}

/// A client's `TlsConfig`, with the studio settings it was made from.
struct ClientTls {
    tls: TlsConfig,
    settings: Ghost<TlsSettingsView>,
}

/// A `ConnectionBuilder`, with the options set on it.
struct ClientBuilder {
    builder: ConnectionBuilder,
    plan: Ghost<BuilderPlan>,
}

/// A `PoolConfig`, with the configuration it holds.
struct ClientPool {
    config: PoolConfig,
    plan: Ghost<ClientPlan>,
}

/// A NodeDB client for one connect attempt, with the configuration it was
/// built with.
pub struct StudioClient {
    client: NativeClient,
    plan: Ghost<ClientPlan>,
}

impl StudioClient {
    /// The configuration this client was built with.
    pub closed spec fn plan(&self) -> ClientPlan {
        self.plan@
    }

    /// The NodeDB client itself.
    pub fn native(&self) -> &NativeClient {
        &self.client
    }
}

/// Converts the studio's TLS settings into the client's `TlsConfig`, field
/// by field (the CA path becomes a `PathBuf`).
#[verifier::external_body]
fn client_tls(t: &TlsSettings) -> (r: ClientTls)
    ensures
        r.settings@ == t@,
{
    let tls = TlsConfig {
        enabled: t.enabled,
        ca_cert_path: t.ca_cert_path.as_ref().map(std::path::PathBuf::from),
        server_name: t.server_name.clone(),
        danger_accept_invalid_certs: t.danger_accept_invalid_certs,
    };
    ClientTls { tls, settings: Ghost(arbitrary()) }
}

/// Calls `ConnectionBuilder::new`, which sets the address and nothing else.
#[verifier::external_body]
fn builder_new(addr: &str) -> (r: ClientBuilder)
    ensures
        r.plan@ == (BuilderPlan {
            addr: Some(addr@),
            username: None,
            password: None,
            api_key: None,
            database: None,
            connect_timeout_secs: None,
            max_connections: None,
            idle_timeout_secs: None,
            tls: None,
        }),
{
    ClientBuilder { builder: ConnectionBuilder::new(addr), plan: Ghost(arbitrary()) }
}

/// Calls `ConnectionBuilder::tls`, which sets the TLS configuration.
#[verifier::external_body]
fn builder_tls(b: ClientBuilder, tls: ClientTls) -> (r: ClientBuilder)
    ensures
        r.plan@ == (BuilderPlan { tls: Some(tls.settings@), ..b.plan@ }),
{
    ClientBuilder { builder: b.builder.tls(tls.tls), plan: Ghost(arbitrary()) }
}

/// Calls `ConnectionBuilder::connect_timeout` with `secs` whole seconds.
#[verifier::external_body]
fn builder_connect_timeout(b: ClientBuilder, secs: u64) -> (r: ClientBuilder)
    ensures
        r.plan@ == (BuilderPlan { connect_timeout_secs: Some(secs), ..b.plan@ }),
{
    let builder = b.builder.connect_timeout(std::time::Duration::from_secs(secs));
    ClientBuilder { builder, plan: Ghost(arbitrary()) }
}

/// Calls `ConnectionBuilder::database`, which sets the database name.
#[verifier::external_body]
fn builder_database(b: ClientBuilder, name: String) -> (r: ClientBuilder)
    ensures
        r.plan@ == (BuilderPlan { database: Some(name@), ..b.plan@ }),
{
    ClientBuilder { builder: b.builder.database(name), plan: Ghost(arbitrary()) }
}

/// Calls `ConnectionBuilder::username`, which sets the username.
#[verifier::external_body]
fn builder_username(b: ClientBuilder, name: String) -> (r: ClientBuilder)
    ensures
        r.plan@ == (BuilderPlan { username: Some(name@), ..b.plan@ }),
{
    ClientBuilder { builder: b.builder.username(name), plan: Ghost(arbitrary()) }
}

/// Calls `ConnectionBuilder::password`, which sets the password.
#[verifier::external_body]
fn builder_password(b: ClientBuilder, password: &str) -> (r: ClientBuilder)
    ensures
        r.plan@ == (BuilderPlan { password: Some(password@), ..b.plan@ }),
{
    ClientBuilder { builder: b.builder.password(password), plan: Ghost(arbitrary()) }
}

/// Calls `ConnectionBuilder::api_key`, which sets the API key.
#[verifier::external_body]
fn builder_api_key(b: ClientBuilder, token: &str) -> (r: ClientBuilder)
    ensures
        r.plan@ == (BuilderPlan { api_key: Some(token@), ..b.plan@ }),
{
    ClientBuilder { builder: b.builder.api_key(token), plan: Ghost(arbitrary()) }
}

/// Calls `ConnectionBuilder::build`, which opens no socket (the pool is
/// lazy) and configures the client as `built_plan` says.
#[verifier::external_body]
fn builder_build(b: ClientBuilder) -> (r: StudioClient)
    ensures
        r.plan() == built_plan(b.plan@),
{
    StudioClient { client: b.builder.build(), plan: Ghost(arbitrary()) }
}

/// Builds a `PoolConfig` for OIDC bearer auth: the given address, token,
/// provider, database, timeout and TLS, with `PoolConfig::default()`'s pool
/// size and idle timeout.
#[verifier::external_body]
fn oidc_pool_config(
    addr: String,
    token: &str,
    provider: Option<String>,
    database: Option<String>,
    secs: u64,
    tls: ClientTls,
) -> (r: ClientPool)
    ensures
        r.plan@ == (ClientPlan {
            addr: addr@,
            database: opt_text(database),
            connect_timeout_secs: secs,
            max_size: DEFAULT_POOL_SIZE as nat,
            idle_timeout_secs: DEFAULT_IDLE_TIMEOUT_SECS as nat,
            tls: tls.settings@,
            credentials: Credentials::OidcBearer { token: token@, provider: opt_text(provider) },
        }),
{
    let defaults = PoolConfig::default();
    let auth = AuthMethod::OidcBearer { token: token.to_string(), provider };
    let config = PoolConfig {
        addr,
        auth,
        database,
        max_size: defaults.max_size,
        connect_timeout: std::time::Duration::from_secs(secs),
        idle_timeout: defaults.idle_timeout,
        tls: tls.tls,
    };
    ClientPool { config, plan: Ghost(arbitrary()) }
}

/// Calls `NativeClient::new`, which opens no socket (the pool is lazy) and
/// keeps the configuration it is given.
#[verifier::external_body]
fn native_client_new(config: ClientPool) -> (r: StudioClient)
    ensures
        r.plan() == config.plan@,
{
    StudioClient { client: NativeClient::new(config.config), plan: Ghost(arbitrary()) }
}

/// The `host:port` address the client dials.
pub open spec fn address_of(host: Seq<char>, port: u16) -> Seq<char> {
    host + ":"@ + decimal(port as nat)
}

/// The connect timeout in seconds: the override, else the default.
pub open spec fn timeout_of(timeout_secs: Option<u64>) -> u64 {
    match timeout_secs {
        Some(s) => s,
        None => DEFAULT_CONNECT_TIMEOUT_SECS,
    }
}

/// Everything one connect attempt hands the client.
pub struct ClientSettings {
    pub addr: String,
    pub database: Option<String>,
    pub tls: TlsSettings,
    pub connect_timeout_secs: u64,
    pub auth: AuthInput,
}

/// The `host:port` address for a saved host and port.
pub fn client_address(host: &str, port: u16) -> (r: String)
    ensures
        r@ == address_of(host@, port),
{
    let port_text = decimal_text(port as u64);
    host.to_owned().concat(":").concat(port_text.as_str())
}

/// The settings for one connect attempt: the address, the default database,
/// the TLS settings, the timeout (the client default of 5 s when `None`)
/// and the auth input, unchanged.
pub fn client_settings(
    host: &str,
    port: u16,
    default_db: Option<String>,
    tls: &TlsSettings,
    timeout_secs: Option<u64>,
    mode: AuthInput,
) -> (r: ClientSettings)
    ensures
        r.addr@ == address_of(host@, port),
        opt_text(r.database) == opt_text(default_db),
        r.tls@ == tls@,
        r.connect_timeout_secs == timeout_of(timeout_secs),
        r.auth == mode,
{
    let connect_timeout_secs = match timeout_secs {
        Some(s) => s,
        None => DEFAULT_CONNECT_TIMEOUT_SECS,
    };
    ClientSettings {
        addr: client_address(host, port),
        database: default_db,
        tls: tls.duplicate(),
        connect_timeout_secs,
        auth: mode,
    }
}

/// The credentials an auth input gives: trust gives the username, a
/// password gives the username and the password, an API key gives the
/// token, OIDC gives the token and the provider hint.
pub open spec fn credentials_of(a: AuthInputView) -> Credentials {
    match a {
        AuthInputView::Trust { username } => Credentials::Trust { username },
        AuthInputView::Password { username, password } => Credentials::Password { username, password },
        AuthInputView::ApiKey { token } => Credentials::ApiKey { token },
        AuthInputView::Oidc { token, provider } => Credentials::OidcBearer { token, provider },
    }
}

/// The configuration a client built from these settings has: the client's
/// default pool size and idle timeout, and the credentials of the auth input.
pub open spec fn plan_of(
    addr: Seq<char>,
    database: Option<Seq<char>>,
    connect_timeout_secs: u64,
    tls: TlsSettingsView,
    auth: AuthInputView,
) -> ClientPlan {
    ClientPlan {
        addr,
        database,
        connect_timeout_secs,
        max_size: DEFAULT_POOL_SIZE as nat,
        idle_timeout_secs: DEFAULT_IDLE_TIMEOUT_SECS as nat,
        tls,
        credentials: credentials_of(auth),
    }
}

/// The builder with the auth-independent options: address, TLS, timeout and
/// the database when there is one.
fn base(addr: &str, db: Option<String>, tls: ClientTls, secs: u64) -> (r: ClientBuilder)
    ensures
        r.plan@ == (BuilderPlan {
            addr: Some(addr@),
            username: None,
            password: None,
            api_key: None,
            database: opt_text(db),
            connect_timeout_secs: Some(secs),
            max_connections: None,
            idle_timeout_secs: None,
            tls: Some(tls.settings@),
        }),
{
    let b = builder_connect_timeout(builder_tls(builder_new(addr), tls), secs);
    match db {
        Some(d) => builder_database(b, d),
        None => b,
    }
}

/// Opens a client for the settings. Trust, password and API key go through
/// `ConnectionBuilder`; OIDC, which the builder has no setter for, goes
/// through a `PoolConfig`. No socket is opened here.
pub fn open_client(s: ClientSettings) -> (r: StudioClient)
    ensures
        r.plan() == plan_of(s.addr@, opt_text(s.database), s.connect_timeout_secs, s.tls@, s.auth@),
{
    let ClientSettings { addr, database, tls, connect_timeout_secs, auth } = s;
    let tls = client_tls(&tls);
    match auth {
        AuthInput::Trust { username } => builder_build(
            builder_username(base(addr.as_str(), database, tls, connect_timeout_secs), username),
        ),
        AuthInput::Password { username, password } => builder_build(
            builder_password(
                builder_username(base(addr.as_str(), database, tls, connect_timeout_secs), username),
                password.expose(),
            ),
        ),
        AuthInput::ApiKey { token } => builder_build(
            builder_api_key(base(addr.as_str(), database, tls, connect_timeout_secs), token.expose()),
        ),
        AuthInput::Oidc { token, provider } => native_client_new(
            oidc_pool_config(addr, token.expose(), provider, database, connect_timeout_secs, tls),
        ),
    }
}

/// Builds a client for one connect attempt; synchronous, and no socket is
/// opened (connect and auth errors surface on the first request). The client
/// dials `host:port`, selects the default database, waits the override or
/// 5 s to connect, keeps the client's default pool size (10) and idle
/// timeout (300 s), uses the TLS settings, and authenticates with the
/// credentials of the auth mode.
pub fn build_client(
    host: &str,
    port: u16,
    default_db: Option<String>,
    tls: &TlsSettings,
    timeout_secs: Option<u64>,
    mode: AuthInput,
) -> (r: StudioClient)
    ensures
        r.plan() == plan_of(address_of(host@, port), opt_text(default_db), timeout_of(timeout_secs), tls@, mode@),
{
    open_client(client_settings(host, port, default_db, tls, timeout_secs, mode))
}

} // verus!
