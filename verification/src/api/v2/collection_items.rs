//! Saved documents of the second API version: the forms and how a saved
//! document is shown.

use vstd::prelude::*;

use crate::api::common::{CollectionParent, SavedDocumentMeta, Sorting, Timestamp};

verus! {

/// The filters and page of a listing of saved documents.
#[derive(Debug, Clone)]
pub struct CollectionItemQueryParams {
    pub q: Option<String>,
    pub sort: Option<Sorting>,
    pub url: Option<String>,
    pub limit: Option<u32>,
    pub offset: Option<u32>,
}

/// A form that saves a document under a name.
#[derive(Debug, Clone)]
pub struct CollectionItemCreationForm {
    pub name: String,
    pub notes: Option<String>,
}

/// The document a form is about.
#[derive(Debug, Clone)]
pub struct CollectionItemCreationParams {
    pub url: String,
}

/// A form that deletes ("true") or restores ("false") a saved document.
#[derive(Debug, Clone)]
pub struct CollectionItemDeletionForm {
    pub delete: String,
}

/// The document a deletion is about.
#[derive(Debug, Clone)]
pub struct CollectionItemDeletionParams {
    pub url: String,
}

/// A form that saves, deletes or restores a document.
#[derive(Debug, Clone)]
pub enum CollectionItemCreationOrDeletionForm {
    Deletion(CollectionItemDeletionForm),
    Creation(CollectionItemCreationForm),
}

/// A saved document as the store has it.
#[derive(Debug, Clone)]
pub struct CollectionItemAndDocumentQuery {
    pub id: i64,
    pub uri: String,
    pub title: String,
    pub custom_name: Option<String>,
    pub notes: Option<String>,
    pub metadata: Option<SavedDocumentMeta>,
    pub created_at: Timestamp,
    pub updated_at: Timestamp,
}

/// A saved document as this listing shows it.
#[derive(Debug, Clone)]
pub struct CollectionItem {
    pub id: i64,
    pub url: String,
    pub title: String,
    pub notes: Option<String>,
    pub parents: Vec<CollectionParent>,
    pub created: Timestamp,
}

/// The title this listing shows: the user's name for the document where
/// there is one, else the document's title; nothing without metadata.
pub open spec fn listed_title(row: CollectionItemAndDocumentQuery) -> Seq<char> {
    match row.metadata {
        None => Seq::empty(),
        Some(_) => match row.custom_name {
            Some(n) => n@,
            None => row.title@,
        },
    }
}

/// The address shown: the metadata's, where it has one.
pub open spec fn listed_url(row: CollectionItemAndDocumentQuery) -> Seq<char> {
    match row.metadata {
        Some(m) => match m.mdn_url {
            Some(u) => u@,
            None => row.uri@,
        },
        None => row.uri@,
    }
}

/// The parents shown: the metadata's, if any.
pub open spec fn listed_parents(row: CollectionItemAndDocumentQuery) -> Seq<CollectionParent> {
    match row.metadata {
        Some(m) => match m.parents {
            Some(p) => p@,
            None => Seq::empty(),
        },
        None => Seq::empty(),
    }
}

impl CollectionItem {
    /// How a saved document is listed.
    pub fn from(row: CollectionItemAndDocumentQuery) -> (res: CollectionItem)
        ensures
            res.id == row.id,
            res.url@ == listed_url(row),
            res.title@ == listed_title(row),
            res.notes == row.notes,
            res.parents@ == listed_parents(row),
            res.created == row.created_at,
    {
        let (parents, title, url) = match row.metadata {
            Some(m) => {
                let title = match row.custom_name {
                    Some(n) => n,
                    None => row.title,
                };
                let url = match m.mdn_url {
                    Some(u) => u,
                    None => row.uri,
                };
                let parents = match m.parents {
                    Some(p) => p,
                    None => Vec::new(),
                };
                (parents, title, url)
            },
            None => (Vec::new(), String::new(), row.uri),
        };
        CollectionItem { id: row.id, url, title, notes: row.notes, parents, created: row.created_at }
    }
}

/// A page of saved documents.
#[derive(Debug, Clone)]
pub struct CollectionItemsResponse {
    pub items: Vec<CollectionItem>,
}

} // verus!
