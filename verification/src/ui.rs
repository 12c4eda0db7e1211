//! Decisions behind the studio's chrome: popovers, connection cards, the
//! connection switcher and the notification list.

use vstd::prelude::*;
use vstd::string::StringExecFns;
use crate::auth::{AuthInput, AuthInputView, Secret};
use crate::error::StudioError;
use crate::identity::opt_str;
use crate::models::{Notification, NotificationView, notification_views};
use crate::registry::{
    AuthMode, ConnStatus, SavedConnection, SavedConnectionView, opt_text,
    saved_views,
};
use crate::session::{ActiveConnection, Capabilities};
use crate::text::{decimal, decimal_text, same_text};

verus! {

/// The topbar popovers; at most one is open.
#[derive(Debug, Clone, Copy, PartialEq, Eq, Structural)]
pub enum Popover {
    Connection,
    Database,
    Notifications,
    Avatar,
}

/// The open popover after clicking the chip of `which`.
pub open spec fn toggle_of(current: Option<Popover>, which: Popover) -> Option<Popover> {
    if current == Some(which) {
        None
    } else {
        Some(which)
    }
}

/// Open `which`, or close it if it is already the open popover.
pub fn toggled(current: Option<Popover>, which: Popover) -> (r: Option<Popover>)
    ensures
        r == toggle_of(current, which),
{
    match current {
        Some(p) => if p == which {
            None
        } else {
            Some(which)
        },
        None => Some(which),
    }
}

/// The auth mode an auth-method option value names; anything else is Password.
pub open spec fn auth_mode_of(value: Seq<char>) -> AuthMode {
    if value == "trust"@ {
        AuthMode::Trust
    } else if value == "api_key"@ {
        AuthMode::ApiKey
    } else if value == "oidc_bearer"@ {
        AuthMode::OidcBearer
    } else {
        AuthMode::Password
    }
}

/// Parse the auth-method selector's value back into an auth mode.
pub fn parse_auth_mode(value: &str) -> (r: AuthMode)
    ensures
        r == auth_mode_of(value@),
{
    if same_text(value, "trust") {
        AuthMode::Trust
    } else if same_text(value, "api_key") {
        AuthMode::ApiKey
    } else if same_text(value, "oidc_bearer") {
        AuthMode::OidcBearer
    } else {
        AuthMode::Password
    }
}

/// Whether a mode needs an in-session secret typed on the card.
pub fn needs_secret(mode: AuthMode) -> (r: bool)
    ensures
        r == !(mode is Trust),
{
    match mode {
        AuthMode::Trust => false,
        AuthMode::Password | AuthMode::ApiKey | AuthMode::OidcBearer => true,
    }
}

/// The placeholder of the secret input for a mode.
pub open spec fn secret_label_of(mode: AuthMode) -> Seq<char> {
    match mode {
        AuthMode::Password => "Password"@,
        AuthMode::ApiKey => "Token"@,
        AuthMode::OidcBearer => "Token"@,
        AuthMode::Trust => ""@,
    }
}

/// The placeholder of the secret input for a mode.
pub fn secret_label(mode: AuthMode) -> (r: &'static str)
    ensures
        r@ == secret_label_of(mode),
{
    match mode {
        AuthMode::Password => "Password",
        AuthMode::ApiKey | AuthMode::OidcBearer => "Token",
        AuthMode::Trust => "",
    }
}

/// The username a saved connection contributes: its own, or empty.
pub open spec fn username_or_empty(saved: SavedConnectionView) -> Seq<char> {
    match saved.username {
        Some(u) => u,
        None => Seq::empty(),
    }
}

/// The auth input for a saved connection's mode and the typed secret and
/// provider: Trust ignores the secret; an empty provider is none.
pub open spec fn auth_input_of(saved: SavedConnectionView, secret: Seq<char>, provider: Seq<char>) -> AuthInputView {
    match saved.auth_mode {
        AuthMode::Trust => AuthInputView::Trust { username: username_or_empty(saved) },
        AuthMode::Password => AuthInputView::Password {
            username: username_or_empty(saved),
            password: secret,
        },
        AuthMode::ApiKey => AuthInputView::ApiKey { token: secret },
        AuthMode::OidcBearer => AuthInputView::Oidc {
            token: secret,
            provider: if provider.len() == 0 {
                None
            } else {
                Some(provider)
            },
        },
    }
}

fn username_of(conn: &SavedConnection) -> (r: String)
    ensures
        r@ == username_or_empty(conn@),
{
    match &conn.username {
        Some(u) => u.clone(),
        None => {
            proof {
                reveal_strlit("");
            }
            "".to_owned()
        },
    }
}

/// Build the auth input from the saved mode and what was typed on the card.
pub fn build_auth_input(conn: &SavedConnection, secret: String, provider: String) -> (r: AuthInput)
    ensures
        r@ == auth_input_of(conn@, secret@, provider@),
{
    match conn.auth_mode {
        AuthMode::Trust => AuthInput::Trust { username: username_of(conn) },
        AuthMode::Password => AuthInput::Password {
            username: username_of(conn),
            password: Secret::new(secret.as_str()),
        },
        AuthMode::ApiKey => AuthInput::ApiKey { token: Secret::new(secret.as_str()) },
        AuthMode::OidcBearer => AuthInput::Oidc {
            token: Secret::new(secret.as_str()),
            provider: if provider.as_str().unicode_len() == 0 {
                None
            } else {
                Some(provider)
            },
        },
    }
}

/// What a quick switch to a saved connection does.
pub enum SwitchPlan {
    /// Connect right away with this secret-free input.
    Connect(AuthInput),
    /// The target needs a secret the session does not hold: go back to the
    /// connection manager so it can be typed on a card.
    ReturnToManager,
}

/// Decide a quick switch: only trust-mode targets connect directly; others
/// never connect with an empty secret.
pub fn switch_plan(target: &SavedConnection) -> (r: SwitchPlan)
    ensures
        match r {
            SwitchPlan::Connect(a) => target@.auth_mode is Trust
                && a@ == (AuthInputView::Trust { username: username_or_empty(target@) }),
            SwitchPlan::ReturnToManager => !(target@.auth_mode is Trust),
        },
{
    match target.auth_mode {
        AuthMode::Trust => SwitchPlan::Connect(AuthInput::Trust { username: username_of(target) }),
        AuthMode::Password | AuthMode::ApiKey | AuthMode::OidcBearer => SwitchPlan::ReturnToManager,
    }
}

/// The connection manager card pill: (pill class, text, dot style).
pub open spec fn card_pill_of(status: ConnStatus) -> (Seq<char>, Seq<char>, Seq<char>) {
    match status {
        ConnStatus::Online => ("pill ok"@, "online"@, ""@),
        ConnStatus::ReadOnly => ("pill warn"@, "read-only"@, ""@),
        ConnStatus::Offline => ("pill"@, "offline"@, "background:var(--text-tertiary)"@),
    }
}

/// The status pill of a connection card: (pill class, text, dot style).
pub fn card_pill(status: ConnStatus) -> (r: (&'static str, &'static str, &'static str))
    ensures
        (r.0@, r.1@, r.2@) == card_pill_of(status),
{
    match status {
        ConnStatus::Online => ("pill ok", "online", ""),
        ConnStatus::ReadOnly => ("pill warn", "read-only", ""),
        ConnStatus::Offline => ("pill", "offline", "background:var(--text-tertiary)"),
    }
}

/// A card stat: the number, or an em dash when unknown.
pub open spec fn count_stat_of(n: Option<u32>) -> Seq<char> {
    match n {
        Some(k) => decimal(k as nat),
        None => "—"@,
    }
}

/// The database-count stat of a card.
pub fn count_stat(n: Option<u32>) -> (r: String)
    ensures
        r@ == count_stat_of(n),
{
    match n {
        Some(k) => decimal_text(k as u64),
        None => "—".to_owned(),
    }
}

/// A card stat: the text, or an em dash when unknown.
pub open spec fn text_stat_of(s: Option<Seq<char>>) -> Seq<char> {
    match s {
        Some(t) => t,
        None => "—"@,
    }
}

/// The ping stat of a card.
pub fn text_stat(s: &Option<String>) -> (r: String)
    ensures
        r@ == text_stat_of(opt_text(*s)),
{
    match s {
        Some(t) => t.clone(),
        None => "—".to_owned(),
    }
}

/// A switch-list entry: (dot class, meta text, disabled).
pub open spec fn switch_item_of(status: ConnStatus, ping: Option<Seq<char>>) -> (Seq<char>, Seq<char>, bool) {
    match status {
        ConnStatus::Online => ("ok"@, match ping { Some(p) => p, None => Seq::empty() }, false),
        ConnStatus::ReadOnly => ("warn"@, "read-only"@, false),
        ConnStatus::Offline => ("off"@, "offline"@, true),
    }
}

/// A switch-list entry of the connection popover: (dot class, meta, disabled).
pub fn switch_item(status: ConnStatus, ping: &Option<String>) -> (r: (&'static str, String, bool))
    ensures
        (r.0@, r.1@, r.2) == switch_item_of(status, opt_text(*ping)),
{
    match status {
        ConnStatus::Online => {
            let meta = match ping {
                Some(p) => p.clone(),
                None => String::new(),
            };
            ("ok", meta, false)
        },
        ConnStatus::ReadOnly => ("warn", "read-only".to_owned(), false),
        ConnStatus::Offline => ("off", "offline".to_owned(), true),
    }
}

/// The saved connections other than the current one, in registry order.
pub open spec fn others_of(registry: Seq<SavedConnectionView>, current: Seq<char>) -> Seq<SavedConnectionView> {
    registry.filter(|c: SavedConnectionView| c.name != current)
}

/// The switch list: every saved connection but the current one.
pub fn switch_targets(registry: &Vec<SavedConnection>, current: &str) -> (r: Vec<SavedConnection>)
    ensures
        saved_views(r@) == others_of(saved_views(registry@), current@),
{
    let mut out: Vec<SavedConnection> = Vec::new();
    let ghost all = saved_views(registry@);
    let mut i: usize = 0;
    while i < registry.len()
        invariant
            all == saved_views(registry@),
            i <= registry@.len(),
            saved_views(out@) == others_of(all.take(i as int), current@),
        decreases registry@.len() - i,
    {
        proof {
            reveal(Seq::filter);
            assert(all.take(i + 1).drop_last() =~= all.take(i as int));
        }
        if !same_text(registry[i].name.as_str(), current) {
            out.push(registry[i].duplicate());
        }
        assert(saved_views(out@) =~= others_of(all.take(i + 1), current@));
        i = i + 1;
    }
    assert(all.take(i as int) =~= all);
    out
}

/// Whether a connection with these features shows a notification.
pub open spec fn shown(n: NotificationView, caps: Capabilities) -> bool {
    match n.required_cap {
        Some(cap) => caps.spec_has(cap),
        None => true,
    }
}

/// The notifications a connection with these features sees, in feed order.
pub open spec fn visible_of(items: Seq<NotificationView>, caps: Capabilities) -> Seq<NotificationView> {
    items.filter(|n: NotificationView| shown(n, caps))
}

/// The notifications a connection sees: those it has the capability for.
pub fn visible(items: &Vec<Notification>, caps: &Capabilities) -> (r: Vec<Notification>)
    ensures
        notification_views(r@) == visible_of(notification_views(items@), *caps),
{
    let mut out: Vec<Notification> = Vec::new();
    let ghost all = notification_views(items@);
    let mut i: usize = 0;
    while i < items.len()
        invariant
            all == notification_views(items@),
            i <= items@.len(),
            notification_views(out@) == visible_of(all.take(i as int), *caps),
        decreases items@.len() - i,
    {
        proof {
            reveal(Seq::filter);
            assert(all.take(i + 1).drop_last() =~= all.take(i as int));
        }
        let keep = match items[i].required_cap {
            Some(cap) => caps.has(cap),
            None => true,
        };
        if keep {
            out.push(items[i].duplicate());
        }
        assert(notification_views(out@) =~= visible_of(all.take(i + 1), *caps));
        i = i + 1;
    }
    assert(all.take(i as int) =~= all);
    out
}

/// The number of unread entries in a list.
pub open spec fn unread_in(items: Seq<NotificationView>) -> nat
    decreases items.len(),
{
    if items.len() == 0 {
        0
    } else {
        unread_in(items.drop_last()) + if items.last().unread {
            1nat
        } else {
            0nat
        }
    }
}

/// The bell badge: the unread notifications this connection sees.
pub fn unread_count(items: &Vec<Notification>, caps: &Capabilities) -> (r: usize)
    ensures
        r == unread_in(visible_of(notification_views(items@), *caps)),
{
    let seen = visible(items, caps);
    let ghost all = notification_views(seen@);
    let mut count: usize = 0;
    let mut i: usize = 0;
    while i < seen.len()
        invariant
            all == notification_views(seen@),
            i <= seen@.len(),
            count == unread_in(all.take(i as int)),
            count <= i,
        decreases seen@.len() - i,
    {
        assert(all.take(i + 1).drop_last() =~= all.take(i as int));
        if seen[i].unread {
            count = count + 1;
        }
        i = i + 1;
    }
    assert(all.take(i as int) =~= all);
    count
}

/// An entry, read.
pub open spec fn read_view(n: NotificationView) -> NotificationView {
    NotificationView { unread: false, ..n }
}

/// The feed after "Mark all read": every entry read, nothing else changed.
pub open spec fn all_read(items: Seq<NotificationView>) -> Seq<NotificationView> {
    items.map_values(|n: NotificationView| read_view(n))
}

/// The feed after clicking the entry with this id: every entry with that id
/// read, nothing else changed.
pub open spec fn read_by_id(items: Seq<NotificationView>, id: Seq<char>) -> Seq<NotificationView> {
    items.map_values(|n: NotificationView| if n.id == id { read_view(n) } else { n })
}

/// Mark every notification of the feed read.
pub fn mark_all_read(items: &mut Vec<Notification>)
    ensures
        notification_views(final(items)@) == all_read(notification_views(old(items)@)),
{
    let ghost before = notification_views(items@);
    let mut i: usize = 0;
    while i < items.len()
        invariant
            items@.len() == before.len(),
            i <= items@.len(),
            forall|j: int| 0 <= j < i ==> #[trigger] items@[j]@ == read_view(before[j]),
            forall|j: int| i <= j < items@.len() ==> #[trigger] items@[j]@ == before[j],
        decreases items@.len() - i,
    {
        let mut n = items[i].duplicate();
        n.unread = false;
        items.set(i, n);
        i = i + 1;
    }
    assert(notification_views(items@) =~= all_read(before));
}

/// Mark the notification with this id read; the others keep their state.
pub fn mark_read(items: &mut Vec<Notification>, id: &str)
    ensures
        notification_views(final(items)@) == read_by_id(notification_views(old(items)@), id@),
{
    let ghost before = notification_views(items@);
    let mut i: usize = 0;
    while i < items.len()
        invariant
            items@.len() == before.len(),
            i <= items@.len(),
            forall|j: int| 0 <= j < i ==> #[trigger] items@[j]@ == (if before[j].id == id@ {
                read_view(before[j])
            } else {
                before[j]
            }),
            forall|j: int| i <= j < items@.len() ==> #[trigger] items@[j]@ == before[j],
        decreases items@.len() - i,
    {
        if same_text(items[i].id.as_str(), id) {
            let mut n = items[i].duplicate();
            n.unread = false;
            items.set(i, n);
        }
        i = i + 1;
    }
    assert(notification_views(items@) =~= read_by_id(before, id@));
}

/// The header count: `all clear`, or the number unread.
pub open spec fn count_label_of(unread: nat) -> Seq<char> {
    if unread == 0 {
        "all clear"@
    } else {
        decimal(unread) + " unread"@
    }
}

/// The header count of the notification popover.
pub fn count_label(unread: usize) -> (r: String)
    ensures
        r@ == count_label_of(unread as nat),
{
    if unread == 0 {
        "all clear".to_owned()
    } else {
        decimal_text(unread as u64).concat(" unread")
    }
}

/// The class of the bell badge: dimmed at zero.
pub fn badge_class(badge: usize) -> (r: &'static str)
    ensures
        r@ == (if badge == 0 { "bell-badge zero"@ } else { "bell-badge"@ }),
{
    if badge == 0 {
        "bell-badge zero"
    } else {
        "bell-badge"
    }
}

/// A group of the notification list: its name and its entries.
pub type GroupView = (Seq<char>, Seq<NotificationView>);

/// The abstract value of a list of groups.
pub open spec fn group_views(gs: Seq<(String, Vec<Notification>)>) -> Seq<GroupView> {
    gs.map_values(|g: (String, Vec<Notification>)| (g.0@, notification_views(g.1@)))
}

/// The names of the groups, in order.
pub open spec fn group_names(gs: Seq<GroupView>) -> Seq<Seq<char>> {
    gs.map_values(|g: GroupView| g.0)
}

/// Adds one entry: to the group of its name if there is one, else to a new
/// group at the end.
pub open spec fn add_to_groups(gs: Seq<GroupView>, n: NotificationView) -> Seq<GroupView> {
    match group_names(gs).index_of_first(n.group) {
        Some(i) => gs.update(i, (gs[i].0, gs[i].1.push(n))),
        None => gs.push((n.group, seq![n])),
    }
}

/// The entries grouped by group name, groups in order of first appearance.
pub open spec fn groups_of(items: Seq<NotificationView>) -> Seq<GroupView>
    decreases items.len(),
{
    if items.len() == 0 {
        Seq::empty()
    } else {
        add_to_groups(groups_of(items.drop_last()), items.last())
    }
}

/// The position of the group named `name`, the first one if several.
fn find_group(groups: &Vec<(String, Vec<Notification>)>, name: &str) -> (r: Option<usize>)
    ensures
        match r {
            Some(j) => group_names(group_views(groups@)).index_of_first(name@) == Some(j as int),
            None => group_names(group_views(groups@)).index_of_first(name@) is None,
        },
{
    let ghost names = group_names(group_views(groups@));
    let mut j: usize = 0;
    while j < groups.len()
        invariant
            names == group_names(group_views(groups@)),
            j <= groups@.len(),
            forall|k: int| 0 <= k < j ==> names[k] != name@,
        decreases groups@.len() - j,
    {
        if same_text(groups[j].0.as_str(), name) {
            proof {
                assert(names[j as int] == name@);
                names.index_of_first_ensures(name@);
                assert(names.contains(name@));
                let k = names.index_of_first(name@)->0;
                assert(k == j);
            }
            return Some(j);
        }
        j = j + 1;
    }
    proof {
        names.index_of_first_ensures(name@);
    }
    None
}

/// Group the visible entries by group, in order of first appearance; each
/// group keeps its entries' order.
pub fn group_notifications(items: &Vec<Notification>) -> (r: Vec<(String, Vec<Notification>)>)
    ensures
        group_views(r@) == groups_of(notification_views(items@)),
{
    let mut groups: Vec<(String, Vec<Notification>)> = Vec::new();
    let ghost all = notification_views(items@);
    let mut i: usize = 0;
    while i < items.len()
        invariant
            all == notification_views(items@),
            i <= items@.len(),
            group_views(groups@) == groups_of(all.take(i as int)),
        decreases items@.len() - i,
    {
        assert(all.take(i + 1).drop_last() =~= all.take(i as int));
        let ghost before = group_views(groups@);
        let n = items[i].duplicate();
        match find_group(&groups, items[i].group.as_str()) {
            Some(j) => {
                proof {
                    group_names(before).index_of_first_ensures(all[i as int].group);
                }
                let ghost g0 = groups@;
                let (name, mut members) = groups.remove(j);
                let ghost m0 = members@;
                members.push(n);
                assert(notification_views(members@) =~= notification_views(m0).push(all[i as int]));
                groups.insert(j, (name, members));
                assert(groups@.len() == g0.len());
                assert forall|k: int| 0 <= k < g0.len() && k != j implies groups@[k] == g0[k] by {}
                assert(group_views(groups@) =~= before.update(j as int, (before[j as int].0, before[j as int].1.push(all[i as int]))));
            },
            None => {
                let mut members: Vec<Notification> = Vec::new();
                members.push(n);
                assert(notification_views(members@) =~= seq![all[i as int]]);
                groups.push((items[i].group.clone(), members));
                assert(group_views(groups@) =~= before.push((all[i as int].group, seq![all[i as int]])));
            },
        }
        i = i + 1;
    }
    assert(all.take(i as int) =~= all);
    groups
}

/// What a connection card shows below its stats.
pub enum CardStatus {
    /// Nothing: no attempt is running and none failed for this card.
    Idle,
    /// This card's connect is running.
    Connecting,
    /// This card's last connect failed: the text, and whether Retry is offered.
    Failed { message: String, retriable: bool },
}

/// The decisions of a connection card.
pub struct CardView {
    /// The card button does nothing: the connection is offline or this card's
    /// connect is running.
    pub disabled: bool,
    /// The secret input is shown: the connection can be connected to and its
    /// mode needs a secret.
    pub show_secret: bool,
    /// The provider input is shown under it, for OIDC.
    pub show_provider: bool,
    pub status: CardStatus,
}

/// Whether an optional name is this one.
pub open spec fn is_named(o: Option<Seq<char>>, name: Seq<char>) -> bool {
    o matches Some(n) && n == name
}

/// The decisions of the card for `saved`, given the connection being
/// connected, if any, and the last connect failure (connection name, text,
/// retriable), if any. A running connect hides a failure; a failure of
/// another connection is not shown on this card.
pub fn card_view(saved: &SavedConnection, connecting: Option<&str>, failure: Option<&(String, String, bool)>) -> (r: CardView)
    ensures
        r.disabled == (saved@.status is Offline || is_named(opt_str(connecting), saved@.name)),
        r.show_secret == (!(saved@.status is Offline) && !(saved@.auth_mode is Trust)),
        r.show_provider == (r.show_secret && saved@.auth_mode is OidcBearer),
        is_named(opt_str(connecting), saved@.name) ==> r.status is Connecting,
        !is_named(opt_str(connecting), saved@.name) ==> match failure {
            Some(f) if f.0@ == saved@.name => r.status matches CardStatus::Failed { message, retriable }
                && message@ == f.1@ && retriable == f.2,
            _ => r.status is Idle,
        },
{
    let connectable = saved.status.is_connectable();
    let is_connecting = match connecting {
        Some(n) => same_text(n, saved.name.as_str()),
        None => false,
    };
    let show_secret = connectable && needs_secret(saved.auth_mode);
    let show_provider = show_secret && match saved.auth_mode {
        AuthMode::OidcBearer => true,
        _ => false,
    };
    let status = if is_connecting {
        CardStatus::Connecting
    } else {
        match failure {
            Some(f) => if same_text(f.0.as_str(), saved.name.as_str()) {
                CardStatus::Failed { message: f.1.clone(), retriable: f.2 }
            } else {
                CardStatus::Idle
            },
            None => CardStatus::Idle,
        }
    };
    CardView { disabled: !connectable || is_connecting, show_secret, show_provider, status }
}

/// The error a connection card shows: (connection name, text, retriable).
pub fn connect_failure(name: &str, e: &StudioError) -> (r: (String, String, bool))
    ensures
        r.0@ == name@,
        r.1@ == e.spec_message(),
        r.2 == e.spec_retriable(),
{
    (name.to_owned(), e.message(), e.is_retriable())
}


/// The connection manager's connect state: the connection whose connect is
/// running, and the last connect failure (connection name, text, retriable).
pub struct ConnectState {
    pub connecting: Option<String>,
    pub failure: Option<(String, String, bool)>,
}

/// A connect starts on a card: that connection is connecting and no failure
/// is shown.
pub fn connect_started(name: &str) -> (r: ConnectState)
    ensures
        r.connecting matches Some(n) && n@ == name@,
        r.failure is None,
{
    ConnectState { connecting: Some(name.to_owned()), failure: None }
}

/// A connect attempt ended: nothing is connecting any more. On success the
/// session is the one to make active and no failure is shown; on failure no
/// session is made active and the card shows the failure.
pub fn connect_ended(name: &str, result: Result<ActiveConnection, StudioError>) -> (r: (ConnectState, Option<ActiveConnection>))
    ensures
        r.0.connecting is None,
        match result {
            Ok(s) => r.1 == Some(s) && r.0.failure is None,
            Err(e) => r.1 is None && (r.0.failure matches Some(f) && f.0@ == name@
                && f.1@ == e.spec_message() && f.2 == e.spec_retriable()),
        },
{
    match result {
        Ok(s) => (ConnectState { connecting: None, failure: None }, Some(s)),
        Err(e) => (ConnectState { connecting: None, failure: Some(connect_failure(name, &e)) }, None),
    }
}

} // verus!
