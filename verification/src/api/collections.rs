//! The saved documents ("collections") of the first API version: how a saved
//! document is shown, what a form asks for, and the plan limits on saving.

use vstd::prelude::*;

use crate::api::common::{
    CollectionParent, SavedDocumentMeta, Sorting, SubscriptionInfo, Timestamp,
};
use crate::api::search::{lowercase, to_lowercase};
use crate::text::{str_eq, to_owned_string};

verus! {

/// The filters and page of a listing of saved documents.
#[derive(Debug, Clone)]
pub struct CollectionsQueryParams {
    pub q: Option<String>,
    pub sort: Option<Sorting>,
    pub url: Option<String>,
    pub limit: Option<u32>,
    pub offset: Option<u32>,
}

/// A saved document as the store has it: the document's address and title,
/// the name the user gave it, the user's notes, and the document's metadata.
#[derive(Debug, Clone)]
pub struct CollectionAndDocumentQuery {
    pub id: i64,
    pub uri: String,
    pub title: String,
    pub custom_name: Option<String>,
    pub notes: Option<String>,
    pub metadata: Option<SavedDocumentMeta>,
    pub created_at: Timestamp,
}

/// A saved document as it is shown.
#[derive(Debug, Clone)]
pub struct CollectionItem {
    pub id: i64,
    pub url: String,
    pub title: String,
    pub notes: Option<String>,
    pub parents: Vec<CollectionParent>,
    pub created: Timestamp,
}

pub open spec fn opt_view(o: Option<String>) -> Option<Seq<char>> {
    match o {
        Some(t) => Some(t@),
        None => None,
    }
}

/// The title shown for a saved document: a non-empty name given by the
/// user, else the document's title; nothing is shown without metadata.
pub open spec fn shown_title(row: CollectionAndDocumentQuery) -> Seq<char> {
    if row.metadata is None {
        Seq::empty()
    } else if row.custom_name matches Some(n) && n@.len() > 0 {
        row.custom_name->0@
    } else {
        row.title@
    }
}

/// The address shown for a saved document: the metadata's, where it has one.
pub open spec fn shown_url(row: CollectionAndDocumentQuery) -> Seq<char> {
    match row.metadata {
        Some(m) => match m.mdn_url {
            Some(u) => u@,
            None => row.uri@,
        },
        None => row.uri@,
    }
}

/// The parents shown for a saved document: the metadata's, if any.
pub open spec fn shown_parents(row: CollectionAndDocumentQuery) -> Seq<CollectionParent> {
    match row.metadata {
        Some(m) => match m.parents {
            Some(p) => p@,
            None => Seq::empty(),
        },
        None => Seq::empty(),
    }
}

impl CollectionItem {
    /// How a saved document is shown.
    pub fn from(row: CollectionAndDocumentQuery) -> (res: CollectionItem)
        ensures
            res.id == row.id,
            res.url@ == shown_url(row),
            res.title@ == shown_title(row),
            opt_view(res.notes) == opt_view(row.notes),
            res.parents@ == shown_parents(row),
            res.created == row.created_at,
    {
        let ghost r = row;
        let (parents, title, url) = match row.metadata {
            Some(m) => {
                let title = match row.custom_name {
                    Some(n) => if !n.as_str().is_empty() { n } else { row.title },
                    None => row.title,
                };
                let url = match m.mdn_url {
                    Some(u) => u,
                    None => row.uri,
                };
                let parents = match m.parents {
                    Some(p) => p,
                    None => Vec::new(),
                };
                (parents, title, url)
            },
            None => (Vec::new(), String::new(), row.uri),
        };
        CollectionItem { id: row.id, url, title, notes: row.notes, parents, created: row.created_at }
    }
}

/// A form that saves a document under a name.
#[derive(Debug, Clone)]
pub struct CollectionCreationForm {
    pub name: String,
    pub notes: Option<String>,
}

/// The document a form is about.
#[derive(Debug, Clone)]
pub struct CollectionCreationParams {
    pub url: String,
}

/// A form that deletes ("true") or restores ("false") a saved document.
#[derive(Debug, Clone)]
pub struct CollectionDeletionForm {
    pub delete: String,
}

/// The document a deletion is about.
#[derive(Debug, Clone)]
pub struct CollectionDeletionParams {
    pub url: String,
}

/// A form that saves, deletes or restores a document.
#[derive(Debug, Clone)]
pub enum CollectionCreationOrDeletionForm {
    Deletion(CollectionDeletionForm),
    Creation(CollectionCreationForm),
}

/// What a form asks for.
#[derive(Debug, Clone)]
pub enum FormAction {
    Save(CollectionCreationForm),
    Delete,
    Undelete,
    /// A deletion form whose flag is neither "true" nor "false", in any case.
    BadRequest,
}

/// What a form asks for: a deletion form's flag is read without regard to
/// case.
pub fn form_action(form: CollectionCreationOrDeletionForm) -> (res: FormAction)
    ensures
        match form {
            CollectionCreationOrDeletionForm::Creation(c) => res matches FormAction::Save(f) && f.name@ == c.name@
                && opt_view(f.notes) == opt_view(c.notes),
            CollectionCreationOrDeletionForm::Deletion(d) =>
                if lowercase(d.delete@) == "true"@ {
                    res is Delete
                } else if lowercase(d.delete@) == "false"@ {
                    res is Undelete
                } else {
                    res is BadRequest
                },
        },
{
    match form {
        CollectionCreationOrDeletionForm::Creation(c) => FormAction::Save(c),
        CollectionCreationOrDeletionForm::Deletion(d) => {
            let flag = to_lowercase(d.delete.as_str());
            if str_eq(flag.as_str(), "true") {
                FormAction::Delete
            } else if str_eq(flag.as_str(), "false") {
                FormAction::Undelete
            } else {
                FormAction::BadRequest
            }
        },
    }
}

/// Whether a document may be saved: an update of a saved document always
/// may; a new one only while the plan leaves room.
pub fn save_allowed(already_saved: bool, items_remaining: Option<i64>) -> (res: bool)
    ensures
        res == (already_saved || items_remaining != Some(0i64)),
{
    match items_remaining {
        Some(0) => already_saved,
        _ => true,
    }
}

/// Whether the plan's limit counts as reached after saving: the remaining
/// room, less the saved item, compared with the plan's limit.
pub fn limit_reached_after_save(items_remaining: Option<i64>, limit: i64) -> (res: bool)
    requires
        items_remaining matches Some(v) ==> v > i64::MIN,
    ensures
        res == (match items_remaining {
            Some(v) => v - 1 <= limit,
            None => false,
        }),
{
    match items_remaining {
        Some(v) => v - 1 <= limit,
        None => false,
    }
}

/// The answer to a restore request, before it is carried out: whether it
/// may be, and then (from whether a document was restored) whether the
/// limit counts as reached.
#[derive(Debug, Clone, Copy, PartialEq, Eq, Structural)]
pub struct UndeleteOutcome {
    pub ok: bool,
    pub subscription_limit_reached: bool,
}

/// Whether a deleted document may be restored: only while the plan leaves
/// room.
pub fn undelete_allowed(info: SubscriptionInfo) -> (res: bool)
    ensures
        res == (match info.items_remaining {
            Some(n) => n > 0,
            None => true,
        }),
{
    match info.items_remaining {
        Some(n) => n > 0,
        None => true,
    }
}

/// The answer to a restore request: refused (limit reached) where the plan
/// leaves no room; otherwise carried out, and the limit is reached when the
/// room left was below 2 after a restore (below 1 when nothing was restored).
pub fn undelete_outcome(info: SubscriptionInfo, undeleted: bool) -> (res: UndeleteOutcome)
    ensures
        !(match info.items_remaining { Some(n) => n > 0, None => true })
            ==> res == (UndeleteOutcome { ok: false, subscription_limit_reached: true }),
        (match info.items_remaining { Some(n) => n > 0, None => true })
            ==> res == (UndeleteOutcome {
                ok: true,
                subscription_limit_reached: match info.items_remaining {
                    Some(n) => if undeleted { n < 2 } else { n < 1 },
                    None => false,
                },
            }),
{
    if undelete_allowed(info) {
        let reached = match info.items_remaining {
            Some(n) => if undeleted { n < 2 } else { n < 1 },
            None => false,
        };
        UndeleteOutcome { ok: true, subscription_limit_reached: reached }
    } else {
        UndeleteOutcome { ok: false, subscription_limit_reached: true }
    }
}

/// Whether the limit counts as reached after a deletion: only where the
/// room left was already negative.
pub fn limit_reached_after_delete(info: SubscriptionInfo) -> (res: bool)
    ensures
        res == (match info.items_remaining {
            Some(n) => n < 0,
            None => false,
        }),
{
    match info.items_remaining {
        Some(n) => n < 0,
        None => false,
    }
}

/// The token sent in place of the retired CSRF token.
pub fn deprecated_csrf_token() -> (res: String)
    ensures
        res@ == "deprecated"@,
{
    to_owned_string("deprecated")
}

/// A page of saved documents, and whether the plan's limit is reached.
#[derive(Debug, Clone)]
pub struct CollectionsResponse {
    pub items: Vec<CollectionItem>,
    pub csrfmiddlewaretoken: String,
    pub subscription_limit_reached: bool,
}

/// One saved document (if the document is saved), and whether the plan's
/// limit is reached.
#[derive(Debug, Clone)]
pub struct CollectionResponse {
    pub bookmarked: Option<CollectionItem>,
    pub csrfmiddlewaretoken: String,
    pub subscription_limit_reached: bool,
}

} // verus!
