//! Notifications of changed documents.

use vstd::prelude::*;

use crate::api::common::{Sorting, Timestamp};

verus! {

/// The kind of a notification.
#[derive(Debug, Clone, Copy, PartialEq, Eq, Structural)]
pub enum NotificationType {
    Content,
    Compatibility,
}

/// The filters and page of a listing of notifications.
#[derive(Debug, Clone)]
pub struct NotificationQueryParams {
    pub limit: Option<u32>,
    pub offset: Option<u32>,
    pub starred: Option<bool>,
    pub q: Option<String>,
    pub sort: Option<Sorting>,
    pub filter_type: Option<NotificationType>,
}

/// A notification as the store has it.
#[derive(Debug, Clone)]
pub struct NotificationsQuery {
    pub id: i64,
    pub title: String,
    pub text: String,
    pub url: String,
    pub created_at: Timestamp,
    pub read: bool,
    pub starred: bool,
}

/// A notification as it is shown.
#[derive(Debug, Clone)]
pub struct Notification {
    pub id: i64,
    pub title: String,
    pub text: String,
    pub url: String,
    pub created: Timestamp,
    pub read: bool,
    pub starred: bool,
}

impl Notification {
    /// A notification, shown as stored.
    pub fn from(n: NotificationsQuery) -> (res: Notification)
        ensures
            res.id == n.id,
            res.title == n.title,
            res.text == n.text,
            res.url == n.url,
            res.created == n.created_at,
            res.read == n.read,
            res.starred == n.starred,
    {
        Notification {
            id: n.id,
            title: n.title,
            text: n.text,
            url: n.url,
            created: n.created_at,
            read: n.read,
            starred: n.starred,
        }
    }
}

} // verus!
