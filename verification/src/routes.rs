//! Studio views, the capability each one needs, and the global shortcuts.

use vstd::prelude::*;
use crate::mock::text;
use crate::models::NotificationTarget;
use crate::session::{Capabilities, Capability};
use crate::text::same_text;

verus! {

/// Studio views. Streams and Admin carry their sub-tab.
#[derive(Debug, Clone)]
pub enum Route {
    Explorer,
    Query,
    Designer,
    GraphExplorer,
    VectorSpace,
    Streams { tab: String },
    Sync,
    Admin { tab: String },
    Console,
    TimeseriesDashboard,
    SpatialView,
    FtsInspector,
}

/// The abstract value of a [`Route`].
pub enum RouteView {
    Explorer,
    Query,
    Designer,
    GraphExplorer,
    VectorSpace,
    Streams { tab: Seq<char> },
    Sync,
    Admin { tab: Seq<char> },
    Console,
    TimeseriesDashboard,
    SpatialView,
    FtsInspector,
}

impl View for Route {
    type V = RouteView;

    open spec fn view(&self) -> RouteView {
        match self {
            Route::Explorer => RouteView::Explorer,
            Route::Query => RouteView::Query,
            Route::Designer => RouteView::Designer,
            Route::GraphExplorer => RouteView::GraphExplorer,
            Route::VectorSpace => RouteView::VectorSpace,
            Route::Streams { tab } => RouteView::Streams { tab: tab@ },
            Route::Sync => RouteView::Sync,
            Route::Admin { tab } => RouteView::Admin { tab: tab@ },
            Route::Console => RouteView::Console,
            Route::TimeseriesDashboard => RouteView::TimeseriesDashboard,
            Route::SpatialView => RouteView::SpatialView,
            Route::FtsInspector => RouteView::FtsInspector,
        }
    }
}

/// The navigation key of each view; every Streams or Admin tab shares one.
pub open spec fn nav_key_of(r: RouteView) -> Seq<char> {
    match r {
        RouteView::Explorer => "explorer"@,
        RouteView::Query => "query"@,
        RouteView::Designer => "designer"@,
        RouteView::GraphExplorer => "graph"@,
        RouteView::VectorSpace => "vector"@,
        RouteView::Streams { .. } => "streams"@,
        RouteView::Sync => "sync"@,
        RouteView::Admin { .. } => "admin"@,
        RouteView::Console => "console"@,
        RouteView::TimeseriesDashboard => "timeseries"@,
        RouteView::SpatialView => "spatial"@,
        RouteView::FtsInspector => "fts"@,
    }
}

/// The capability a view needs, if any.
pub open spec fn required_cap_of(r: RouteView) -> Option<Capability> {
    match r {
        RouteView::GraphExplorer => Some(Capability::Graph),
        RouteView::VectorSpace => Some(Capability::Vector),
        RouteView::Streams { .. } => Some(Capability::Streams),
        RouteView::TimeseriesDashboard => Some(Capability::Timeseries),
        RouteView::SpatialView => Some(Capability::Spatial),
        RouteView::FtsInspector => Some(Capability::Fts),
        RouteView::Sync => Some(Capability::Sync),
        _ => None,
    }
}

impl Route {
    /// Stable key for the rail's active state.
    pub fn nav_key(&self) -> (r: &'static str)
        ensures
            r@ == nav_key_of(self@),
    {
        match self {
            Route::Explorer => "explorer",
            Route::Query => "query",
            Route::Designer => "designer",
            Route::GraphExplorer => "graph",
            Route::VectorSpace => "vector",
            Route::Streams { .. } => "streams",
            Route::Sync => "sync",
            Route::Admin { .. } => "admin",
            Route::Console => "console",
            Route::TimeseriesDashboard => "timeseries",
            Route::SpatialView => "spatial",
            Route::FtsInspector => "fts",
        }
    }

    /// The capability a view requires to be reachable, if any.
    pub fn required_cap(&self) -> (r: Option<Capability>)
        ensures
            r == required_cap_of(self@),
    {
        match self {
            Route::GraphExplorer => Some(Capability::Graph),
            Route::VectorSpace => Some(Capability::Vector),
            Route::Streams { .. } => Some(Capability::Streams),
            Route::TimeseriesDashboard => Some(Capability::Timeseries),
            Route::SpatialView => Some(Capability::Spatial),
            Route::FtsInspector => Some(Capability::Fts),
            Route::Sync => Some(Capability::Sync),
            _ => None,
        }
    }
}

/// Where a notification of each target leads.
pub open spec fn target_route_of(t: NotificationTarget) -> RouteView {
    match t {
        NotificationTarget::Sync => RouteView::Sync,
        NotificationTarget::StreamsTopics => RouteView::Streams { tab: "topics"@ },
        NotificationTarget::StreamsCron => RouteView::Streams { tab: "cron"@ },
        NotificationTarget::Admin => RouteView::Admin { tab: "cluster"@ },
        NotificationTarget::Query => RouteView::Query,
    }
}

/// Where a notification navigates when clicked.
pub fn target_route(target: NotificationTarget) -> (r: Route)
    ensures
        r@ == target_route_of(target),
{
    match target {
        NotificationTarget::Sync => Route::Sync,
        NotificationTarget::StreamsTopics => Route::Streams { tab: text("topics") },
        NotificationTarget::StreamsCron => Route::Streams { tab: text("cron") },
        NotificationTarget::Admin => Route::Admin { tab: text("cluster") },
        NotificationTarget::Query => Route::Query,
    }
}

/// Whether the layout must fall back to the Explorer: the view needs a
/// capability that the active connection (if any) lacks.
pub open spec fn must_fall_back(r: RouteView, active: Option<Capabilities>) -> bool {
    match required_cap_of(r) {
        Some(cap) => match active {
            Some(caps) => !caps.spec_has(cap),
            None => true,
        },
        None => false,
    }
}

/// Whether the current view must be replaced by the Explorer.
pub fn needs_fallback(route: &Route, active: Option<Capabilities>) -> (r: bool)
    ensures
        r == must_fall_back(route@, active),
{
    match route.required_cap() {
        Some(cap) => match active {
            Some(caps) => !caps.has(cap),
            None => true,
        },
        None => false,
    }
}

/// A key press as the layout's keyboard handler sees it.
#[derive(Debug, Clone)]
pub enum KeyInput {
    Character(String),
    Escape,
    Other,
}

/// What a global shortcut does.
#[derive(Debug, Clone, Copy, PartialEq, Eq, Structural)]
pub enum KeyCommand {
    /// Cmd/Ctrl+K: open the command palette.
    OpenPalette,
    /// Cmd/Ctrl+D: release the live client, then leave the session.
    Disconnect,
    /// Cmd/Ctrl+,: open Preferences.
    OpenPreferences,
    /// Escape: close the palette, the popover and the modal.
    CloseOverlays,
}

/// The shortcut a key press triggers, with `meta` true when Cmd or Ctrl is held.
pub open spec fn key_command_of(key: Seq<char>, is_char: bool, is_escape: bool, meta: bool) -> Option<KeyCommand> {
    if is_char && meta && key == "k"@ {
        Some(KeyCommand::OpenPalette)
    } else if is_char && meta && key == "d"@ {
        Some(KeyCommand::Disconnect)
    } else if is_char && meta && key == ","@ {
        Some(KeyCommand::OpenPreferences)
    } else if is_escape {
        Some(KeyCommand::CloseOverlays)
    } else {
        None
    }
}

/// The abstract value of a key press: its text, whether it is a character,
/// whether it is Escape.
pub open spec fn key_parts(key: KeyInput) -> (Seq<char>, bool, bool) {
    match key {
        KeyInput::Character(c) => (c@, true, false),
        KeyInput::Escape => (Seq::empty(), false, true),
        KeyInput::Other => (Seq::empty(), false, false),
    }
}

/// The global shortcut a key press triggers, if any.
pub fn key_command(key: &KeyInput, meta: bool) -> (r: Option<KeyCommand>)
    ensures
        r == key_command_of(key_parts(*key).0, key_parts(*key).1, key_parts(*key).2, meta),
{
    match key {
        KeyInput::Character(c) => {
            if meta && same_text(c.as_str(), "k") {
                Some(KeyCommand::OpenPalette)
            } else if meta && same_text(c.as_str(), "d") {
                Some(KeyCommand::Disconnect)
            } else if meta && same_text(c.as_str(), ",") {
                Some(KeyCommand::OpenPreferences)
            } else {
                None
            }
        },
        KeyInput::Escape => Some(KeyCommand::CloseOverlays),
        KeyInput::Other => None,
    }
}

} // verus!
