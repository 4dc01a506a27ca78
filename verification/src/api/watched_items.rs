//! Watched documents: how a watched document is shown, and the plan limit
//! on watching.

use vstd::prelude::*;

use crate::api::common::{Sorting, SubscriptionInfo};
use crate::text::to_owned_string;

verus! {

/// The filters and page of a listing of watched documents.
#[derive(Debug, Clone)]
pub struct WatchedItemQueryParams {
    pub url: Option<String>,
    pub limit: Option<u32>,
    pub offset: Option<u32>,
    pub q: Option<String>,
    pub sort: Option<Sorting>,
}

/// A request to watch or stop watching a document.
#[derive(Debug, Clone)]
pub struct UpdateWatchedItemFormData {
    pub unwatch: Option<bool>,
    pub title: Option<String>,
    pub path: Option<String>,
}

/// The document a watch request is about.
#[derive(Debug, Clone)]
pub struct UpdateWatchedItemQueryParams {
    pub url: String,
}

/// A request to stop watching several documents.
#[derive(Debug, Clone)]
pub struct UnwatchManyRequest {
    pub unwatch: Vec<String>,
}

/// A watched document as the store has it.
#[derive(Debug, Clone)]
pub struct WatchedItemsQuery {
    pub user_id: i64,
    pub document_id: i64,
    pub uri: String,
    pub title: String,
    pub paths: Vec<Option<String>>,
}

/// A watched document as it is shown.
#[derive(Debug, Clone)]
pub struct WatchedItem {
    pub title: String,
    pub url: String,
    pub path: String,
    pub status: String,
}

/// The path shown for a watched document: its first path, or its address
/// where there is none.
pub open spec fn shown_path(row: WatchedItemsQuery) -> Seq<char> {
    if row.paths@.len() > 0 && row.paths@[0] is Some {
        row.paths@[0]->0@
    } else {
        row.uri@
    }
}

impl WatchedItem {
    /// How a watched document is shown; its status is always "major".
    pub fn from(row: WatchedItemsQuery) -> (res: WatchedItem)
        ensures
            res.title@ == row.title@,
            res.url@ == row.uri@,
            res.path@ == shown_path(row),
            res.status@ == "major"@,
    {
        let path = if row.paths.len() > 0 {
            match &row.paths[0] {
                Some(p) => p.clone(),
                None => row.uri.clone(),
            }
        } else {
            row.uri.clone()
        };
        WatchedItem { title: row.title, url: row.uri, path, status: to_owned_string("major") }
    }
}

/// The answer to a watch request.
#[derive(Debug, Clone)]
pub struct WatchedItemUpdateResponse {
    pub ok: bool,
    pub subscription_limit_reached: bool,
    pub error: Option<String>,
    /// The plan's limit, where the request was refused for it.
    pub max_allowed: Option<i64>,
}

/// What a watch request asks for.
#[derive(Debug, Clone, Copy, PartialEq, Eq, Structural)]
pub enum WatchAction {
    Unwatch,
    Watch,
}

/// A request stops watching only where it says so.
pub fn watch_action(form: &UpdateWatchedItemFormData) -> (res: WatchAction)
    ensures
        res == (if form.unwatch == Some(true) { WatchAction::Unwatch } else { WatchAction::Watch }),
{
    match form.unwatch {
        Some(true) => WatchAction::Unwatch,
        _ => WatchAction::Watch,
    }
}

/// The refusal of a watch request when the plan's limit is reached.
pub fn limit_refusal(limit: i64) -> (res: WatchedItemUpdateResponse)
    ensures
        !res.ok,
        res.subscription_limit_reached,
        res.error matches Some(e) && e@ == "max_subscriptions"@,
        res.max_allowed == Some(limit),
{
    WatchedItemUpdateResponse {
        ok: false,
        subscription_limit_reached: true,
        error: Some(to_owned_string("max_subscriptions")),
        max_allowed: Some(limit),
    }
}

/// The answer after watching a document: the limit is reached when the room
/// left, less the documents just watched, is used up.
pub fn watched_response(info: SubscriptionInfo, created: usize) -> (res: WatchedItemUpdateResponse)
    requires
        info.items_remaining matches Some(r) ==> r - created >= i64::MIN,
        created <= i64::MAX,
    ensures
        res.ok,
        res.subscription_limit_reached == (match info.items_remaining {
            Some(r) => r - created <= 0,
            None => false,
        }),
        res.error is None,
        res.max_allowed is None,
{
    let reached = match info.items_remaining {
        Some(r) => r - (created as i64) <= 0,
        None => false,
    };
    WatchedItemUpdateResponse { ok: true, subscription_limit_reached: reached, error: None, max_allowed: None }
}

/// The answer after unwatching a document.
pub fn unwatched_response(info: SubscriptionInfo) -> (res: WatchedItemUpdateResponse)
    ensures
        res.ok,
        res.subscription_limit_reached == info.limit_reached,
        res.error is None,
        res.max_allowed is None,
{
    WatchedItemUpdateResponse {
        ok: true,
        subscription_limit_reached: info.limit_reached,
        error: None,
        max_allowed: None,
    }
}

/// The status answered for a document that is not watched.
pub fn unwatched_status() -> (res: String)
    ensures
        res@ == "unwatched"@,
{
    to_owned_string("unwatched")
}

} // verus!
