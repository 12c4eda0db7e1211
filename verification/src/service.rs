//! The backend seam, without its async shell: the mock service over the
//! hardcoded data, and the live service's session slot and connect decisions.

use vstd::prelude::*;
use vstd::string::StringExecFns;
use crate::auth::StudioClient;
use crate::capabilities_map::{capabilities_of, derive_capabilities};
use crate::error::StudioError;
use crate::identity::{
    ProbeResult, ProbeView, databases_of, identity_of, opt_probe, opt_probe_value, opt_str, parse_databases,
    parse_identity,
};
use crate::mock;
use crate::models::{Notification, notification_views};
use crate::registry::{SavedConnection, SavedConnectionView, ConnStatus, saved_views};
use crate::session::{ActiveConnection, ActiveConnectionView, Capabilities};
use crate::text::{decimal, decimal_text, trim, trimmed};

verus! {

/// The chip's secondary line: the version when the server gave one, and the
/// database count.
pub open spec fn sub_line(server_version: Seq<char>, db_count: nat) -> Seq<char> {
    let version = trimmed(server_version);
    if version.len() == 0 {
        "nodedb · "@ + decimal(db_count) + " dbs"@
    } else {
        "nodedb · "@ + version + " · "@ + decimal(db_count) + " dbs"@
    }
}

/// The session that probe results and negotiated metadata describe.
pub open spec fn session_of(
    caps_bits: u64,
    server_version: Seq<char>,
    who: Option<ProbeView>,
    dbs: Option<ProbeView>,
    form_user: Option<Seq<char>>,
    conn_name: Seq<char>,
    default_db: Seq<char>,
) -> ActiveConnectionView {
    let identity = identity_of(who, form_user, conn_name, default_db);
    let databases = databases_of(dbs, identity.current_database);
    ActiveConnectionView {
        name: conn_name,
        sub: sub_line(server_version, databases.len()),
        user: identity.user,
        role: identity.role,
        capabilities: capabilities_of(caps_bits),
        databases,
        current_database: identity.current_database,
    }
}

fn sub_text(server_version: &str, db_count: usize) -> (r: String)
    ensures
        r@ == sub_line(server_version@, db_count as nat),
{
    let version = trim(server_version);
    let count = decimal_text(db_count as u64);
    if version.unicode_len() == 0 {
        "nodedb · ".to_owned().concat(count.as_str()).concat(" dbs")
    } else {
        "nodedb · ".to_owned().concat(version).concat(" · ").concat(count.as_str()).concat(" dbs")
    }
}

/// Assemble a session from probe results and negotiated metadata. Identity
/// and databases fall back as `parse_identity` and `parse_databases` do.
pub fn describe_connection(
    caps_bits: u64,
    server_version: &str,
    who: Option<&ProbeResult>,
    dbs: Option<&ProbeResult>,
    form_user: Option<&str>,
    conn_name: &str,
    default_db: &str,
) -> (r: ActiveConnection)
    ensures
        r@ == session_of(
            caps_bits,
            server_version@,
            opt_probe(who),
            opt_probe(dbs),
            opt_str(form_user),
            conn_name@,
            default_db@,
        ),
{
    let capabilities = derive_capabilities(caps_bits);
    let identity = parse_identity(who, form_user, conn_name, default_db);
    let databases = parse_databases(dbs, identity.current_database.as_str());
    let sub = sub_text(server_version, databases.len());
    ActiveConnection {
        name: conn_name.to_owned(),
        sub,
        user: identity.user,
        role: identity.role,
        capabilities,
        databases,
        current_database: identity.current_database,
    }
}

/// The database a saved connection selects, `default` when it names none.
pub open spec fn default_db_of(saved: SavedConnectionView) -> Seq<char> {
    match saved.default_database {
        Some(d) => d,
        None => "default"@,
    }
}

/// The capability bits the mock offers: every feature the server reports.
pub const MOCK_CAPABILITY_BITS: u64 = 63;

/// The session the mock opens for a saved connection: none when offline;
/// otherwise the session of an empty probe, with every feature on and the
/// read-only flag set for a read-only connection.
pub open spec fn mock_session(saved: SavedConnectionView) -> Option<ActiveConnectionView> {
    if saved.status is Offline {
        None
    } else {
        let s = session_of(
            MOCK_CAPABILITY_BITS,
            Seq::empty(),
            None,
            None,
            saved.username,
            saved.name,
            default_db_of(saved),
        );
        Some(ActiveConnectionView {
            capabilities: Capabilities { readonly: saved.status is ReadOnly, ..s.capabilities },
            ..s
        })
    }
}

impl SavedConnection {
    /// Open a mock session for this saved connection; `None` when offline.
    pub fn open(&self) -> (r: Option<ActiveConnection>)
        ensures
            match r {
                Some(s) => mock_session(self@) == Some(s@),
                None => mock_session(self@) is None,
            },
    {
        if !self.status.is_connectable() {
            return None;
        }
        let default_db = match &self.default_database {
            Some(d) => d.clone(),
            None => "default".to_owned(),
        };
        let form_user = match &self.username {
            Some(u) => Some(u.as_str()),
            None => None,
        };
        proof {
            reveal_strlit("");
        }
        assert(""@ =~= Seq::<char>::empty());
        let mut session = describe_connection(
            MOCK_CAPABILITY_BITS,
            "",
            None,
            None,
            form_user,
            self.name.as_str(),
            default_db.as_str(),
        );
        session.capabilities.readonly = match self.status {
            ConnStatus::ReadOnly => true,
            _ => false,
        };
        Some(session)
    }
}

/// The session the mock connect gives for a name: the first saved connection
/// with that name, opened; none when no entry has it or it is offline.
pub open spec fn mock_connect(name: Seq<char>) -> Option<ActiveConnectionView> {
    let conns = mock::mock_connections();
    match conns.map_values(|c: SavedConnectionView| c.name).index_of_first(name) {
        Some(i) => mock_session(conns[i]),
        None => None,
    }
}

/// The hardcoded service over the mock data. Only `connect` can fail.
#[derive(Debug, Clone, Copy, Default)]
pub struct MockConnectionService;

impl MockConnectionService {
    /// The saved-connection registry backing the connection manager.
    pub fn list_connections(&self) -> (r: Result<Vec<SavedConnection>, StudioError>)
        ensures
            r matches Ok(v) && saved_views(v@) == mock::mock_connections(),
    {
        Ok(mock::connections())
    }

    /// The full notification feed.
    pub fn notifications(&self) -> (r: Result<Vec<Notification>, StudioError>)
        ensures
            r matches Ok(v) && notification_views(v@) == mock::mock_notifications(),
    {
        Ok(mock::notifications())
    }

    /// Open a session by saved-connection name; `NotConnected` when the name
    /// is unknown or the connection is offline.
    pub fn connect(&self, name: &str) -> (r: Result<ActiveConnection, StudioError>)
        ensures
            match r {
                Ok(s) => mock_connect(name@) == Some(s@),
                Err(e) => mock_connect(name@) is None && e is NotConnected,
            },
    {
        let conns = mock::connections();
        let ghost names = mock::mock_connections().map_values(|c: SavedConnectionView| c.name);
        let mut i: usize = 0;
        while i < conns.len()
            invariant
                saved_views(conns@) == mock::mock_connections(),
                names == mock::mock_connections().map_values(|c: SavedConnectionView| c.name),
                i <= conns@.len(),
                forall|j: int| 0 <= j < i ==> names[j] != name@,
            decreases conns@.len() - i,
        {
            if conns[i].name.as_str().to_owned() == name.to_owned() {
                proof {
                    assert(names[i as int] == name@);
                    names.index_of_first_ensures(name@);
                    assert(names.contains(name@));
                    let k = names.index_of_first(name@)->0;
                    assert(k == i);
                    assert(mock::mock_connections()[i as int] == conns@[i as int]@);
                }
                return match conns[i].open() {
                    Some(s) => Ok(s),
                    None => Err(StudioError::NotConnected),
                };
            }
            i = i + 1;
        }
        proof {
            names.index_of_first_ensures(name@);
        }
        Err(StudioError::NotConnected)
    }
}

/// The live, client-backed service: holds the client of the open session.
pub struct NodeDbConnectionService {
    client: Option<StudioClient>,
}

impl Default for NodeDbConnectionService {
    /// A service with no session.
    fn default() -> (r: NodeDbConnectionService)
        ensures
            !r.holds_client(),
    {
        NodeDbConnectionService { client: None }
    }
}

impl NodeDbConnectionService {
    /// Whether a live client is held.
    pub closed spec fn holds_client(&self) -> bool {
        self.client is Some
    }

    /// The client of the open session, if any.
    pub closed spec fn held(&self) -> Option<StudioClient> {
        self.client
    }


    /// Whether a live client is held.
    pub fn is_connected(&self) -> (r: bool)
        ensures
            r == self.holds_client(),
    {
        self.client.is_some()
    }

    /// Release the live session: drop the held client so its pool closes.
    /// Idempotent.
    pub fn disconnect(&mut self)
        ensures
            !final(self).holds_client(),
    {
        self.client = None;
    }

    /// Conclude a connect attempt from the identity probe and what followed
    /// it. A failed probe is the connect failure: its error comes back and
    /// no client is kept. Otherwise the session is described from the probes
    /// and the client is held.
    pub fn finish_connect(
        &mut self,
        saved: &SavedConnection,
        client: StudioClient,
        identity: Result<ProbeResult, StudioError>,
        caps_bits: u64,
        server_version: &str,
        databases: Option<ProbeResult>,
    ) -> (r: Result<ActiveConnection, StudioError>)
        ensures
            match identity {
                Err(e) => r == Err::<ActiveConnection, StudioError>(e) && *final(self) == *old(self),
                Ok(who) => r matches Ok(s) && final(self).holds_client() && final(self).held() == Some(client)
                    && s@ == session_of(
                    caps_bits,
                    server_version@,
                    Some(who@),
                    opt_probe_value(databases),
                    saved@.username,
                    saved@.name,
                    default_db_of(saved@),
                ),
            },
    {
        let who = match identity {
            Ok(w) => w,
            Err(e) => return Err(e),
        };
        let default_db = match &saved.default_database {
            Some(d) => d.clone(),
            None => "default".to_owned(),
        };
        let form_user = match &saved.username {
            Some(u) => Some(u.as_str()),
            None => None,
        };
        let conn = describe_connection(
            caps_bits,
            server_version,
            Some(&who),
            databases.as_ref(),
            form_user,
            saved.name.as_str(),
            default_db.as_str(),
        );
        self.client = Some(client);
        Ok(conn)
    }

    /// The live registry is not wired yet.
    pub fn list_connections(&self) -> (r: Result<Vec<SavedConnection>, StudioError>)
        ensures
            r matches Err(e) && e is NotConnected,
    {
        Err(StudioError::NotConnected)
    }

    /// The live notification feed is not wired yet.
    pub fn notifications(&self) -> (r: Result<Vec<Notification>, StudioError>)
        ensures
            r matches Err(e) && e is NotConnected,
    {
        Err(StudioError::NotConnected)
    }

    /// A name alone carries no secret, so the live service does not connect
    /// by name; `finish_connect` concludes a real connect.
    pub fn connect(&self, name: &str) -> (r: Result<ActiveConnection, StudioError>)
        ensures
            r matches Err(e) && e is NotConnected,
    {
        Err(StudioError::NotConnected)
    }
}

} // verus!
