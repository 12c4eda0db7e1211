//! Collections in the explorer sidebar and the notification feed.

use vstd::prelude::*;
use crate::session::Capability;

verus! {

/// The storage mode of a collection. One NodeDB instance offers all of them.
#[derive(Debug, Clone, Copy, PartialEq, Eq, Structural)]
pub enum StorageMode {
    Document,
    Strict,
    Vector,
    Graph,
    Timeseries,
    Kv,
    Spatial,
    Fts,
}

/// One collection in the explorer sidebar.
#[derive(Debug)]
pub struct Collection {
    pub name: String,
    pub mode: StorageMode,
    /// Display count, such as `12,481` or `2.4M`.
    pub count: String,
}

/// The abstract value of [`Collection`].
pub struct CollectionView {
    pub name: Seq<char>,
    pub mode: StorageMode,
    pub count: Seq<char>,
}

impl View for Collection {
    type V = CollectionView;

    open spec fn view(&self) -> CollectionView {
        CollectionView { name: self.name@, mode: self.mode, count: self.count@ }
    }
}

/// Severity of a notification.
#[derive(Debug, Clone, Copy, PartialEq, Eq, Structural)]
pub enum Severity {
    Info,
    Warn,
    Error,
}

/// Where a notification leads when clicked.
#[derive(Debug, Clone, Copy, PartialEq, Eq, Structural)]
pub enum NotificationTarget {
    Sync,
    StreamsTopics,
    StreamsCron,
    Admin,
    Query,
}

/// One entry of the notification feed.
#[derive(Debug)]
pub struct Notification {
    pub id: String,
    pub severity: Severity,
    pub group: String,
    /// The capability a connection needs for this entry to be shown.
    pub required_cap: Option<Capability>,
    pub title: String,
    pub desc: String,
    pub when: String,
    pub target: NotificationTarget,
    pub unread: bool,
}

/// The abstract value of [`Notification`].
pub struct NotificationView {
    pub id: Seq<char>,
    pub severity: Severity,
    pub group: Seq<char>,
    pub required_cap: Option<Capability>,
    pub title: Seq<char>,
    pub desc: Seq<char>,
    pub when: Seq<char>,
    pub target: NotificationTarget,
    pub unread: bool,
}

impl View for Notification {
    type V = NotificationView;

    open spec fn view(&self) -> NotificationView {
        NotificationView {
            id: self.id@,
            severity: self.severity,
            group: self.group@,
            required_cap: self.required_cap,
            title: self.title@,
            desc: self.desc@,
            when: self.when@,
            target: self.target,
            unread: self.unread,
        }
    }
}

/// The abstract value of a list of notifications.
pub open spec fn notification_views(s: Seq<Notification>) -> Seq<NotificationView> {
    s.map_values(|n: Notification| n@)
}

impl Notification {
    /// A copy with the same fields.
    pub fn duplicate(&self) -> (r: Notification)
        ensures
            r@ == self@,
    {
        Notification {
            id: self.id.clone(),
            severity: self.severity,
            group: self.group.clone(),
            required_cap: self.required_cap,
            title: self.title.clone(),
            desc: self.desc.clone(),
            when: self.when.clone(),
            target: self.target,
            unread: self.unread,
        }
    }
}

} // verus!
