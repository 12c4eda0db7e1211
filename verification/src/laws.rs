//! Properties of the library that span its functions, proved over the
//! specifications their contracts use.

use vstd::prelude::*;
use crate::capabilities_map::capabilities_of;
use crate::error::{
    ClientError, ErrorCategory, auth_kinds, category_of, classify, conflict_kinds, connection_kinds,
    not_found_kinds, read_only_kinds, setup_kinds,
};
use crate::identity::{ProbeView, databases_of, identity_of};
use crate::routes::{KeyCommand, RouteView, key_command_of, must_fall_back, required_cap_of};
use crate::session::Capabilities;
use crate::auth::{AuthInputView, Credentials, plan_of};
use crate::identity::{database_names, usable_text};
use crate::registry::TlsSettingsView;
use crate::session::Capability;
use crate::mock::mock_connections;
use crate::models::NotificationView;
use crate::registry::SavedConnectionView;
use crate::service::{mock_connect, mock_session};
use crate::ui::{
    GroupView, Popover, add_to_groups, all_read, auth_input_of, group_names, groups_of, others_of,
    read_by_id, shown, toggle_of, unread_in, visible_of,
};

verus! {

/// An all-zero (or never probed) capability mask hides every optional
/// feature; only the always-on vector engine stays visible.
pub proof fn zero_mask_hides_optional_features()
    ensures
        capabilities_of(0) == (Capabilities {
            graph: false,
            fts: false,
            spatial: false,
            streams: false,
            timeseries: false,
            sync: false,
            vector: true,
            cluster: false,
            readonly: false,
        }),
{
    assert(0u64 & 1 == 0 && 0u64 & 2 == 0 && 0u64 & 4 == 0 && 0u64 & 8 == 0 && 0u64 & 16 == 0
        && 0u64 & 32 == 0) by (bit_vector);
}

/// A server that confirms more bits never hides a feature that fewer bits
/// showed.
pub proof fn more_bits_never_hide_features(fewer: u64, more: u64)
    requires
        fewer & more == fewer,
    ensures
        capabilities_of(fewer).graph ==> capabilities_of(more).graph,
        capabilities_of(fewer).fts ==> capabilities_of(more).fts,
        capabilities_of(fewer).spatial ==> capabilities_of(more).spatial,
        capabilities_of(fewer).streams ==> capabilities_of(more).streams,
        capabilities_of(fewer).timeseries ==> capabilities_of(more).timeseries,
        capabilities_of(fewer).sync ==> capabilities_of(more).sync,
{
    assert(fewer & more == fewer ==> (
        (fewer & 1 != 0 ==> more & 1 != 0)
        && (fewer & 2 != 0 ==> more & 2 != 0)
        && (fewer & 4 != 0 ==> more & 4 != 0)
        && (fewer & 8 != 0 ==> more & 8 != 0)
        && (fewer & 16 != 0 ==> more & 16 != 0)
        && (fewer & 32 != 0 ==> more & 32 != 0))) by (bit_vector);
}

/// Sorting a client error into a category keeps its retry answer.
pub proof fn classification_keeps_retry_answer(c: ClientError)
    ensures
        classify(c).spec_retriable() == c.retriable,
        !(classify(c) is NotConnected),
{
}

/// A client error is categorised by its own kind: the category is the one
/// its kind picks, the error is carried unchanged, and two errors of one
/// kind land in one category.
pub proof fn classification_follows_kind(c: ClientError, d: ClientError)
    ensures
        classify(c).spec_category() == category_of(c.kind@),
        classify(c).carried() == Some(c),
        c.kind@ == d.kind@ ==> classify(c).spec_category() == classify(d).spec_category(),
{
}

/// Whatever the probe returned, the session has at least one database.
pub proof fn databases_never_empty(dbs: Option<ProbeView>, current_database: Seq<char>)
    ensures
        databases_of(dbs, current_database).len() >= 1,
{
}

/// The session user is never blank when the connection name is not.
pub proof fn user_never_blank(
    who: Option<ProbeView>,
    form_user: Option<Seq<char>>,
    conn_name: Seq<char>,
    default_db: Seq<char>,
)
    requires
        conn_name.len() > 0,
    ensures
        identity_of(who, form_user, conn_name, default_db).user.len() > 0,
{
}

/// The fallback view needs no capability, so falling back never loops.
pub proof fn fallback_view_is_always_reachable(active: Option<Capabilities>)
    ensures
        required_cap_of(RouteView::Explorer) is None,
        !must_fall_back(RouteView::Explorer, active),
{
}

/// A view stays when the connection offers what it needs.
pub proof fn offered_view_never_falls_back(r: RouteView, caps: Capabilities)
    requires
        required_cap_of(r) matches Some(cap) ==> caps.spec_has(cap),
    ensures
        !must_fall_back(r, Some(caps)),
{
}

/// Escape closes every overlay, with or without a modifier; a character
/// triggers a shortcut only while Cmd or Ctrl is held.
pub proof fn shortcuts_need_the_modifier(key: Seq<char>, meta: bool)
    ensures
        key_command_of(Seq::empty(), false, true, meta) == Some(KeyCommand::CloseOverlays),
        key_command_of(key, true, false, false) is None,
{
}

/// Clicking a chip twice gives back what was open before: nothing, or that
/// same popover.
pub proof fn toggling_twice_restores(current: Option<Popover>, which: Popover)
    requires
        current is None || current == Some(which),
    ensures
        toggle_of(toggle_of(current, which), which) == current,
{
}

/// Clicking a chip always leaves either nothing or that chip's popover open.
pub proof fn toggle_opens_only_the_clicked_popover(current: Option<Popover>, which: Popover)
    ensures
        toggle_of(current, which) is None || toggle_of(current, which) == Some(which),
{
}

/// The auth input takes the saved connection's mode; only non-trust modes
/// carry the typed secret.
pub proof fn auth_input_follows_saved_mode(
    saved: SavedConnectionView,
    secret: Seq<char>,
    provider: Seq<char>,
)
    ensures
        (auth_input_of(saved, secret, provider) is Trust) == (saved.auth_mode is Trust),
        (auth_input_of(saved, secret, provider) is Password) == (saved.auth_mode is Password),
        (auth_input_of(saved, secret, provider) is ApiKey) == (saved.auth_mode is ApiKey),
        (auth_input_of(saved, secret, provider) is Oidc) == (saved.auth_mode is OidcBearer),
        auth_input_of(saved, secret, provider) matches AuthInputView::Password { password, .. } ==> password == secret,
        auth_input_of(saved, secret, provider) matches AuthInputView::ApiKey { token } ==> token == secret,
        auth_input_of(saved, secret, provider) matches AuthInputView::Oidc { token, .. } ==> token == secret,
{
}

/// The switch list never offers the current connection, and offers every
/// other saved connection.
pub proof fn switch_list_excludes_only_current(registry: Seq<SavedConnectionView>, current: Seq<char>)
    ensures
        forall|k: int| 0 <= k < others_of(registry, current).len()
            ==> others_of(registry, current)[k].name != current,
        forall|k: int| 0 <= k < registry.len() && registry[k].name != current
            ==> others_of(registry, current).contains(registry[k]),
{
    let pred = |c: SavedConnectionView| c.name != current;
    assert forall|k: int| 0 <= k < others_of(registry, current).len()
        implies others_of(registry, current)[k].name != current by {
        registry.lemma_filter_pred(pred, k);
    }
    assert forall|k: int| 0 <= k < registry.len() && registry[k].name != current
        implies others_of(registry, current).contains(registry[k]) by {
        registry.lemma_filter_contains(pred, k);
    }
}

/// A connection sees exactly the notifications it has the capability for,
/// and never more unread ones than it sees.
pub proof fn visible_entries_are_offered(items: Seq<NotificationView>, caps: Capabilities)
    ensures
        forall|k: int| 0 <= k < visible_of(items, caps).len()
            ==> shown(#[trigger] visible_of(items, caps)[k], caps),
        forall|k: int| 0 <= k < items.len() && shown(items[k], caps)
            ==> visible_of(items, caps).contains(items[k]),
        unread_in(visible_of(items, caps)) <= visible_of(items, caps).len(),
{
    let pred = |n: NotificationView| shown(n, caps);
    assert forall|k: int| 0 <= k < visible_of(items, caps).len()
        implies shown(#[trigger] visible_of(items, caps)[k], caps) by {
        items.lemma_filter_pred(pred, k);
    }
    assert forall|k: int| 0 <= k < items.len() && shown(items[k], caps)
        implies visible_of(items, caps).contains(items[k]) by {
        items.lemma_filter_contains(pred, k);
    }
    unread_at_most_len(visible_of(items, caps));
}

/// "Mark all read" clears the bell badge of every connection, and keeps the
/// feed's length and order of entries.
pub proof fn mark_all_read_clears_badge(items: Seq<NotificationView>, caps: Capabilities)
    ensures
        unread_in(visible_of(all_read(items), caps)) == 0,
        all_read(items).len() == items.len(),
        forall|k: int| 0 <= k < items.len() ==> (#[trigger] all_read(items)[k]).id == items[k].id,
{
    unread_of_filter_at_most(all_read(items), |n: NotificationView| shown(n, caps));
    all_read_has_no_unread(items);
}

/// Clicking an entry leaves every entry with its id read, changes no other
/// entry, and never raises the unread count.
pub proof fn mark_read_reads_only_that_entry(items: Seq<NotificationView>, id: Seq<char>)
    ensures
        read_by_id(items, id).len() == items.len(),
        forall|k: int| 0 <= k < items.len() && items[k].id == id
            ==> !(#[trigger] read_by_id(items, id)[k]).unread,
        forall|k: int| 0 <= k < items.len() && items[k].id != id
            ==> #[trigger] read_by_id(items, id)[k] == items[k],
        unread_in(read_by_id(items, id)) <= unread_in(items),
{
    read_by_id_never_raises(items, id);
}

/// The bell badge never counts more than the feed has unread.
pub proof fn badge_at_most_feed_unread(items: Seq<NotificationView>, caps: Capabilities)
    ensures
        unread_in(visible_of(items, caps)) <= unread_in(items),
{
    unread_of_filter_at_most(items, |n: NotificationView| shown(n, caps));
}

proof fn unread_of_push(s: Seq<NotificationView>, n: NotificationView)
    ensures
        unread_in(s.push(n)) == unread_in(s) + if n.unread { 1nat } else { 0nat },
{
    assert(s.push(n).drop_last() =~= s);
}

proof fn unread_of_filter_at_most(s: Seq<NotificationView>, p: spec_fn(NotificationView) -> bool)
    ensures
        unread_in(s.filter(p)) <= unread_in(s),
    decreases s.len(),
{
    reveal(Seq::filter);
    if s.len() > 0 {
        unread_of_filter_at_most(s.drop_last(), p);
        unread_of_push(s.drop_last().filter(p), s.last());
    }
}

proof fn all_read_has_no_unread(s: Seq<NotificationView>)
    ensures
        unread_in(all_read(s)) == 0,
    decreases s.len(),
{
    if s.len() > 0 {
        assert(all_read(s).drop_last() =~= all_read(s.drop_last()));
        all_read_has_no_unread(s.drop_last());
    }
}

proof fn read_by_id_never_raises(s: Seq<NotificationView>, id: Seq<char>)
    ensures
        unread_in(read_by_id(s, id)) <= unread_in(s),
    decreases s.len(),
{
    if s.len() > 0 {
        assert(read_by_id(s, id).drop_last() =~= read_by_id(s.drop_last(), id));
        read_by_id_never_raises(s.drop_last(), id);
    }
}

proof fn unread_at_most_len(items: Seq<NotificationView>)
    ensures
        unread_in(items) <= items.len(),
    decreases items.len(),
{
    if items.len() > 0 {
        unread_at_most_len(items.drop_last());
    }
}

/// The shape of grouped notifications: group names are distinct, no group is
/// empty, every entry of a group carries that group's name, and every entry
/// lands in the group of its name.
pub open spec fn well_grouped(items: Seq<NotificationView>, gs: Seq<GroupView>) -> bool {
    &&& forall|a: int, b: int| 0 <= a < b < gs.len() ==> gs[a].0 != gs[b].0
    &&& forall|g: int| 0 <= g < gs.len() ==> gs[g].1.len() > 0
    &&& forall|g: int, k: int| 0 <= g < gs.len() && 0 <= k < gs[g].1.len()
        ==> (#[trigger] gs[g].1[k]).group == gs[g].0
    &&& forall|k: int| 0 <= k < items.len() ==> group_names(gs).contains(#[trigger] items[k].group)
}

/// Grouping the notification list yields well-formed groups.
pub proof fn grouping_is_well_formed(items: Seq<NotificationView>)
    ensures
        well_grouped(items, groups_of(items)),
    decreases items.len(),
{
    if items.len() > 0 {
        let prefix = items.drop_last();
        let n = items.last();
        grouping_is_well_formed(prefix);
        let gs = groups_of(prefix);
        let names = group_names(gs);
        names.index_of_first_ensures(n.group);
        let out = add_to_groups(gs, n);
        assert(out == groups_of(items));
        match names.index_of_first(n.group) {
            Some(i) => {
                assert(group_names(out) =~= names);
                assert forall|g: int, k: int| 0 <= g < out.len() && 0 <= k < out[g].1.len()
                    implies (#[trigger] out[g].1[k]).group == out[g].0 by {
                    if g == i {
                        if k < gs[g].1.len() {
                            assert(out[g].1[k] == gs[g].1[k]);
                        }
                    }
                }
                assert forall|k: int| 0 <= k < items.len()
                    implies group_names(out).contains(#[trigger] items[k].group) by {
                    if k < prefix.len() {
                        assert(items[k] == prefix[k]);
                    } else {
                        assert(names[i] == n.group);
                    }
                }
            },
            None => {
                assert(group_names(out) =~= names.push(n.group));
                assert forall|a: int, b: int| 0 <= a < b < out.len() implies out[a].0 != out[b].0 by {
                    if b == gs.len() {
                        assert(names[a] == gs[a].0);
                    }
                }
                assert forall|k: int| 0 <= k < items.len()
                    implies group_names(out).contains(#[trigger] items[k].group) by {
                    if k < prefix.len() {
                        assert(items[k] == prefix[k]);
                        let j = choose|j: int| 0 <= j < names.len() && names[j] == prefix[k].group;
                        assert(group_names(out)[j] == names[j]);
                    } else {
                        assert(group_names(out)[gs.len() as int] == n.group);
                    }
                }
            },
        }
    }
}

/// The mock's saved connections have distinct names.
proof fn mock_names_distinct()
    ensures
        forall|a: int, b: int| 0 <= a < b < 4
            ==> mock_connections()[a].name != mock_connections()[b].name,
{
    reveal_strlit("local-nodedb-dev");
    reveal_strlit("staging-cluster");
    reveal_strlit("prod-replica-eu");
    reveal_strlit("test-nodedb");
    assert(mock_connections()[0].name[0] != mock_connections()[1].name[0]);
    assert(mock_connections()[0].name[0] != mock_connections()[2].name[0]);
    assert(mock_connections()[0].name[0] != mock_connections()[3].name[0]);
    assert(mock_connections()[1].name[0] != mock_connections()[2].name[0]);
    assert(mock_connections()[1].name[0] != mock_connections()[3].name[0]);
    assert(mock_connections()[2].name[0] != mock_connections()[3].name[0]);
}

/// The mock connects by name exactly to its saved connections that are not
/// offline, each to its own session.
pub proof fn mock_connect_opens_saved_connections(name: Seq<char>)
    ensures
        mock_connect(name) is Some <==> exists|i: int| 0 <= i < 4
            && mock_connections()[i].name == name
            && !(mock_connections()[i].status is Offline),
        forall|i: int| 0 <= i < 4 && mock_connections()[i].name == name
            ==> mock_connect(name) == mock_session(mock_connections()[i]),
{
    mock_names_distinct();
    let conns = mock_connections();
    let names = conns.map_values(|c: SavedConnectionView| c.name);
    names.index_of_first_ensures(name);
    assert forall|i: int| 0 <= i < 4 && conns[i].name == name
        implies mock_connect(name) == mock_session(conns[i]) by {
        assert(names[i] == name);
        assert(names.contains(name));
        let k = names.index_of_first(name)->0;
        assert(names[k] == name);
        assert(conns[k].name == name);
    }
    if mock_connect(name) is Some {
        let k = names.index_of_first(name)->0;
        assert(names[k] == name);
        assert(conns[k].name == name);
    }
}


/// A client is built with the credentials of the auth mode it was given, and
/// the secret it carries is the one that was typed: trust authenticates the
/// username, a password the username with that password, an API key its
/// token, OIDC its bearer token with the provider hint.
pub proof fn client_credentials_follow_the_auth_mode(
    addr: Seq<char>,
    database: Option<Seq<char>>,
    secs: u64,
    tls: TlsSettingsView,
    username: Seq<char>,
    secret: Seq<char>,
    provider: Option<Seq<char>>,
)
    ensures
        plan_of(addr, database, secs, tls, AuthInputView::Trust { username }).credentials
            == (Credentials::Trust { username }),
        plan_of(addr, database, secs, tls, AuthInputView::Password { username, password: secret }).credentials
            == (Credentials::Password { username, password: secret }),
        plan_of(addr, database, secs, tls, AuthInputView::ApiKey { token: secret }).credentials
            == (Credentials::ApiKey { token: secret }),
        plan_of(addr, database, secs, tls, AuthInputView::Oidc { token: secret, provider }).credentials
            == (Credentials::OidcBearer { token: secret, provider }),
{
}

/// The database list is the trimmed text of column 0 of each row whose
/// column-0 cell is non-blank text, in row order; no other column is read.
pub proof fn database_names_are_first_cells(rows: Seq<Seq<Option<Seq<char>>>>)
    ensures
        database_names(rows) == rows.filter(
            |r: Seq<Option<Seq<char>>>| r.len() > 0 && usable_text(r[0]) is Some,
        ).map_values(|r: Seq<Option<Seq<char>>>| usable_text(r[0])->0),
    decreases rows.len(),
{
    let pred = |r: Seq<Option<Seq<char>>>| r.len() > 0 && usable_text(r[0]) is Some;
    let f = |r: Seq<Option<Seq<char>>>| usable_text(r[0])->0;
    reveal(Seq::filter);
    if rows.len() > 0 {
        database_names_are_first_cells(rows.drop_last());
        let kept = rows.drop_last().filter(pred);
        if pred(rows.last()) {
            assert(kept.push(rows.last()).map_values(f) =~= kept.map_values(f).push(f(rows.last())));
        }
    } else {
        assert(rows.filter(pred).map_values(f) =~= Seq::<Seq<char>>::empty());
    }
}

/// The kinds the studio treats as connection failures.
pub open spec fn is_connection_kind(k: Seq<char>) -> bool {
    ||| k == "handshake_failed"@
    ||| k == "sync_connection_failed"@
    ||| k == "node_unreachable"@
    ||| k == "no_leader"@
    ||| k == "not_leader"@
    ||| k == "migration_in_progress"@
    ||| k == "server_overload"@
    ||| k == "memory_exhausted"@
}

/// The kinds the studio treats as refused credentials.
pub open spec fn is_auth_kind(k: Seq<char>) -> bool {
    k == "authorization_denied"@ || k == "auth_expired"@
}

/// The kinds the studio treats as missing targets.
pub open spec fn is_not_found_kind(k: Seq<char>) -> bool {
    ||| k == "collection_not_found"@
    ||| k == "document_not_found"@
    ||| k == "collection_draining"@
    ||| k == "collection_deactivated"@
}

/// The kinds the studio treats as conflicting writes.
pub open spec fn is_conflict_kind(k: Seq<char>) -> bool {
    ||| k == "write_conflict"@
    ||| k == "constraint_violation"@
    ||| k == "prevalidation_rejected"@
    ||| k == "balance_violation"@
    ||| k == "state_transition_violation"@
    ||| k == "transition_check_violation"@
    ||| k == "type_guard_violation"@
    ||| k == "insufficient_balance"@
    ||| k == "overflow"@
    ||| k == "type_mismatch"@
}

/// The kinds the studio treats as refused writes.
pub open spec fn is_read_only_kind(k: Seq<char>) -> bool {
    ||| k == "mirror_read_only"@
    ||| k == "append_only_violation"@
    ||| k == "period_locked"@
    ||| k == "legal_hold_active"@
    ||| k == "retention_violation"@
    ||| k == "mirror_not_promoted"@
}

/// The kinds the studio treats as a wrong request or configuration.
pub open spec fn is_setup_kind(k: Seq<char>) -> bool {
    k == "config"@ || k == "bad_request"@ || k == "sql_not_enabled"@
}

/// A client error kind is a connection error exactly when it is one of the
/// eight connection kinds; the other categories take their own kinds, in the
/// order the lists are tried; every kind in no list (such as
/// `deadline_exceeded`) is a server error.
pub proof fn error_categories_follow_the_kind_lists(k: Seq<char>)
    ensures
        (category_of(k) == ErrorCategory::Connection) <==> is_connection_kind(k),
        (category_of(k) == ErrorCategory::Auth) <==> (!is_connection_kind(k) && is_auth_kind(k)),
        (category_of(k) == ErrorCategory::NotFound) <==> (!is_connection_kind(k) && !is_auth_kind(k)
            && is_not_found_kind(k)),
        (category_of(k) == ErrorCategory::Conflict) <==> (!is_connection_kind(k) && !is_auth_kind(k)
            && !is_not_found_kind(k) && is_conflict_kind(k)),
        (category_of(k) == ErrorCategory::ReadOnly) <==> (!is_connection_kind(k) && !is_auth_kind(k)
            && !is_not_found_kind(k) && !is_conflict_kind(k) && is_read_only_kind(k)),
        (category_of(k) == ErrorCategory::Setup) <==> (!is_connection_kind(k) && !is_auth_kind(k)
            && !is_not_found_kind(k) && !is_conflict_kind(k) && !is_read_only_kind(k)
            && is_setup_kind(k)),
        (category_of(k) == ErrorCategory::Server) <==> (!is_connection_kind(k) && !is_auth_kind(k)
            && !is_not_found_kind(k) && !is_conflict_kind(k) && !is_read_only_kind(k)
            && !is_setup_kind(k)),
        category_of(k) != ErrorCategory::NotConnected,
{
    assert(connection_kinds().contains(k) <==> is_connection_kind(k)) by {
        if is_connection_kind(k) {
            let c = connection_kinds();
            assert(c[0] == "handshake_failed"@ && c[1] == "sync_connection_failed"@
                && c[2] == "node_unreachable"@ && c[3] == "no_leader"@ && c[4] == "not_leader"@
                && c[5] == "migration_in_progress"@ && c[6] == "server_overload"@
                && c[7] == "memory_exhausted"@);
        }
    }
    assert(auth_kinds().contains(k) <==> is_auth_kind(k)) by {
        if is_auth_kind(k) {
            let c = auth_kinds();
            assert(c[0] == "authorization_denied"@ && c[1] == "auth_expired"@);
        }
    }
    assert(not_found_kinds().contains(k) <==> is_not_found_kind(k)) by {
        if is_not_found_kind(k) {
            let c = not_found_kinds();
            assert(c[0] == "collection_not_found"@ && c[1] == "document_not_found"@
                && c[2] == "collection_draining"@ && c[3] == "collection_deactivated"@);
        }
    }
    assert(conflict_kinds().contains(k) <==> is_conflict_kind(k)) by {
        if is_conflict_kind(k) {
            let c = conflict_kinds();
            assert(c[0] == "write_conflict"@ && c[1] == "constraint_violation"@
                && c[2] == "prevalidation_rejected"@ && c[3] == "balance_violation"@
                && c[4] == "state_transition_violation"@ && c[5] == "transition_check_violation"@
                && c[6] == "type_guard_violation"@ && c[7] == "insufficient_balance"@
                && c[8] == "overflow"@ && c[9] == "type_mismatch"@);
        }
    }
    assert(read_only_kinds().contains(k) <==> is_read_only_kind(k)) by {
        if is_read_only_kind(k) {
            let c = read_only_kinds();
            assert(c[0] == "mirror_read_only"@ && c[1] == "append_only_violation"@
                && c[2] == "period_locked"@ && c[3] == "legal_hold_active"@
                && c[4] == "retention_violation"@ && c[5] == "mirror_not_promoted"@);
        }
    }
    assert(setup_kinds().contains(k) <==> is_setup_kind(k)) by {
        if is_setup_kind(k) {
            let c = setup_kinds();
            assert(c[0] == "config"@ && c[1] == "bad_request"@ && c[2] == "sql_not_enabled"@);
        }
    }
}

/// Each studio feature flag is read from its own capability bit alone: the
/// flag of a mask equals the flag of that one bit of the mask, is on for the
/// bit by itself and off for the empty mask. The vector engine is always on;
/// cluster and read-only are never set from the mask.
pub proof fn each_feature_reads_only_its_own_bit(bits: u64)
    ensures
        capabilities_of(bits).streams == capabilities_of(bits & 1).streams,
        capabilities_of(bits).graph == capabilities_of(bits & 2).graph,
        capabilities_of(bits).fts == capabilities_of(bits & 4).fts,
        capabilities_of(bits).sync == capabilities_of(bits & 8).sync,
        capabilities_of(bits).spatial == capabilities_of(bits & 16).spatial,
        capabilities_of(bits).timeseries == capabilities_of(bits & 32).timeseries,
        capabilities_of(1).streams && capabilities_of(2).graph && capabilities_of(4).fts
            && capabilities_of(8).sync && capabilities_of(16).spatial
            && capabilities_of(32).timeseries,
        !capabilities_of(0).streams && !capabilities_of(0).graph && !capabilities_of(0).fts
            && !capabilities_of(0).sync && !capabilities_of(0).spatial
            && !capabilities_of(0).timeseries,
        capabilities_of(bits).vector,
        !capabilities_of(bits).cluster && !capabilities_of(bits).readonly,
{
    assert(
        ((bits & 1) & 1 != 0) == (bits & 1 != 0)
        && ((bits & 2) & 2 != 0) == (bits & 2 != 0)
        && ((bits & 4) & 4 != 0) == (bits & 4 != 0)
        && ((bits & 8) & 8 != 0) == (bits & 8 != 0)
        && ((bits & 16) & 16 != 0) == (bits & 16 != 0)
        && ((bits & 32) & 32 != 0) == (bits & 32 != 0)
    ) by (bit_vector);
    assert(
        1u64 & 1 != 0 && 2u64 & 2 != 0 && 4u64 & 4 != 0 && 8u64 & 8 != 0 && 16u64 & 16 != 0
        && 32u64 & 32 != 0
    ) by (bit_vector);
    assert(0u64 & 1 == 0 && 0u64 & 2 == 0 && 0u64 & 4 == 0 && 0u64 & 8 == 0 && 0u64 & 16 == 0
        && 0u64 & 32 == 0) by (bit_vector);
}

/// Each gated view needs its own feature: it falls back to the Explorer
/// exactly when the active connection lacks that feature, and always when no
/// connection is active. The other views never fall back.
pub proof fn gated_views_need_their_own_feature(caps: Capabilities, tab: Seq<char>)
    ensures
        must_fall_back(RouteView::FtsInspector, Some(caps)) <==> !caps.fts,
        must_fall_back(RouteView::SpatialView, Some(caps)) <==> !caps.spatial,
        must_fall_back(RouteView::TimeseriesDashboard, Some(caps)) <==> !caps.timeseries,
        must_fall_back(RouteView::Streams { tab }, Some(caps)) <==> !caps.streams,
        must_fall_back(RouteView::GraphExplorer, Some(caps)) <==> !caps.graph,
        must_fall_back(RouteView::VectorSpace, Some(caps)) <==> !caps.vector,
        must_fall_back(RouteView::Sync, Some(caps)) <==> !caps.sync,
        required_cap_of(RouteView::FtsInspector) == Some(Capability::Fts),
        required_cap_of(RouteView::SpatialView) == Some(Capability::Spatial),
        required_cap_of(RouteView::TimeseriesDashboard) == Some(Capability::Timeseries),
        required_cap_of(RouteView::Streams { tab }) == Some(Capability::Streams),
        required_cap_of(RouteView::GraphExplorer) == Some(Capability::Graph),
        required_cap_of(RouteView::VectorSpace) == Some(Capability::Vector),
        required_cap_of(RouteView::Sync) == Some(Capability::Sync),
        must_fall_back(RouteView::FtsInspector, None) && must_fall_back(RouteView::SpatialView, None)
            && must_fall_back(RouteView::TimeseriesDashboard, None)
            && must_fall_back(RouteView::Streams { tab }, None)
            && must_fall_back(RouteView::GraphExplorer, None)
            && must_fall_back(RouteView::VectorSpace, None) && must_fall_back(RouteView::Sync, None),
        forall|active: Option<Capabilities>|
            !must_fall_back(RouteView::Explorer, active) && !must_fall_back(RouteView::Query, active)
                && !must_fall_back(RouteView::Designer, active)
                && !must_fall_back(RouteView::Admin { tab }, active)
                && !must_fall_back(RouteView::Console, active),
{
}

} // verus!
