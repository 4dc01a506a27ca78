//! Pieces shared by several endpoints: the chunks of streamed answers, the
//! order of listings, and reading the metadata of an MDN document.

use vstd::prelude::*;

use crate::api::error::ApiError;
use crate::text::{push_str, to_owned_string};

verus! {

/// The order of a listing.
#[derive(Debug, Clone, Copy, PartialEq, Eq, Structural)]
pub enum Sorting {
    Title,
    Created,
}

/// The new text of a streamed answer chunk.
#[derive(Debug, Clone)]
pub struct GeneratedChunkDelta {
    pub content: String,
}

/// One choice of a streamed answer chunk.
#[derive(Debug, Clone)]
pub struct GeneratedChunkChoice {
    pub delta: GeneratedChunkDelta,
    pub finish_reason: Option<String>,
}

/// A chunk of a streamed answer that the server writes itself.
#[derive(Debug, Clone)]
pub struct GeneratedChunk {
    pub choices: Vec<GeneratedChunkChoice>,
    pub id: i64,
}

impl GeneratedChunk {
    /// A chunk without choices, with id 1.
    pub fn default() -> (res: GeneratedChunk)
        ensures
            res.choices@.len() == 0,
            res.id == 1,
    {
        GeneratedChunk { choices: Vec::new(), id: 1 }
    }

    /// A chunk with one choice that carries the text and no finish reason.
    pub fn from(content: &str) -> (res: GeneratedChunk)
        ensures
            res.id == 1,
            res.choices@.len() == 1,
            res.choices@[0].delta.content@ == content@,
            res.choices@[0].finish_reason is None,
    {
        let mut choices: Vec<GeneratedChunkChoice> = Vec::new();
        choices.push(GeneratedChunkChoice {
            delta: GeneratedChunkDelta { content: to_owned_string(content) },
            finish_reason: None,
        });
        GeneratedChunk { choices, id: 1 }
    }

    /// A chunk that ends the answer: one empty choice whose finish reason is "stop".
    pub fn stop() -> (res: GeneratedChunk)
        ensures
            res.id == 1,
            res.choices@.len() == 1,
            res.choices@[0].delta.content@.len() == 0,
            res.choices@[0].finish_reason matches Some(r) && r@ == "stop"@,
    {
        let mut choices: Vec<GeneratedChunkChoice> = Vec::new();
        choices.push(GeneratedChunkChoice {
            delta: GeneratedChunkDelta { content: String::new() },
            finish_reason: Some(to_owned_string("stop")),
        });
        GeneratedChunk { choices, id: 1 }
    }
}

/// The address of a document's metadata: the document base url, the
/// document's path, and `/index.json`.
pub fn document_metadata_url(document_base_url: &str, url: &str) -> (res: String)
    ensures
        res@ == document_base_url@ + url@ + "/index.json"@,
{
    let mut s = to_owned_string(document_base_url);
    push_str(&mut s, url);
    push_str(&mut s, "/index.json");
    s
}

/// An element of a document's body: its type and, for compatibility tables,
/// the query of the data shown.
pub struct BodyElement {
    pub typ: Option<String>,
    pub query: Option<String>,
}

/// Whether a body element is a browser compatibility table with a query.
pub open spec fn is_compat_query(e: BodyElement) -> bool {
    e.typ matches Some(t) && t@ == "browser_compatibility"@ && e.query is Some
}

/// The queries of the browser compatibility tables, in order.
pub open spec fn compat_paths(body: Seq<BodyElement>) -> Seq<Seq<char>>
    decreases body.len(),
{
    if body.len() == 0 {
        Seq::empty()
    } else {
        let rest = compat_paths(body.drop_last());
        let e = body.last();
        if is_compat_query(e) {
            rest.push(e.query->0@)
        } else {
            rest
        }
    }
}

/// The browser compatibility data shown by a document: the queries of its
/// compatibility tables.
pub fn browser_compat_paths(body: &Vec<BodyElement>) -> (res: Vec<String>)
    ensures
        crate::text::views(res@) == compat_paths(body@),
{
    let mut res: Vec<String> = Vec::new();
    let mut i: usize = 0;
    while i < body.len()
        invariant
            i <= body.len(),
            crate::text::views(res@) == compat_paths(body@.take(i as int)),
        decreases body.len() - i,
    {
        proof { assert(body@.take(i + 1).drop_last() =~= body@.take(i as int)); }
        match (&body[i].typ, &body[i].query) {
            (Some(t), Some(q)) => {
                if crate::text::str_eq(t.as_str(), "browser_compatibility") {
                    res.push(q.clone());
                    proof {
                        assert(crate::text::views(res@) =~= compat_paths(body@.take(i as int)).push(q@));
                    }
                }
            },
            _ => {},
        }
        i = i + 1;
    }
    proof { assert(body@.take(body.len() as int) =~= body@); }
    res
}

/// The error of a failed metadata request: a missing document is reported as
/// such, every other failure as unknown.
pub fn document_fetch_error(status: Option<u16>) -> (res: ApiError)
    ensures
        status == Some(404u16) ==> res is DocumentNotFound,
        status != Some(404u16) ==> res is Unknown,
{
    match status {
        Some(404) => ApiError::DocumentNotFound,
        _ => ApiError::Unknown,
    }
}


/// A parent page of a document, for breadcrumbs.
#[derive(Debug, Clone)]
pub struct CollectionParent {
    pub uri: String,
    pub title: String,
}

/// The part of a document's metadata that is read from its `doc` object.
#[derive(Debug, Clone)]
pub struct DocumentMetadataExtract {
    pub mdn_url: String,
    pub parents: Option<Vec<CollectionParent>>,
    pub title: String,
}

/// A document's metadata as the document server answers it.
#[derive(Debug, Clone)]
pub struct DocumentMetadataResponse {
    pub doc: DocumentMetadataExtract,
}

/// What is stored of a document: its address, parents, title, and the
/// browser compatibility data it shows.
#[derive(Debug, Clone)]
pub struct DocumentMetadata {
    pub mdn_url: String,
    pub parents: Option<Vec<CollectionParent>>,
    pub title: String,
    pub paths: Vec<String>,
}

/// A document's metadata: the fields of its `doc` object and the queries of
/// the compatibility tables of its body.
pub fn document_metadata(metadata: DocumentMetadataResponse, body: &Vec<BodyElement>) -> (res: DocumentMetadata)
    ensures
        res.mdn_url@ == metadata.doc.mdn_url@,
        res.parents == metadata.doc.parents,
        res.title@ == metadata.doc.title@,
        crate::text::views(res.paths@) == compat_paths(body@),
{
    let paths = browser_compat_paths(body);
    DocumentMetadata {
        mdn_url: metadata.doc.mdn_url,
        parents: metadata.doc.parents,
        title: metadata.doc.title,
        paths,
    }
}


/// A date and time in UTC, as stored.
#[derive(Debug, Clone, Copy, PartialEq, Eq, Structural)]
pub struct Timestamp {
    pub seconds: i64,
    pub nanos: u32,
}

/// A user's subscription: the free core plan or a paid MDN Plus plan.
#[derive(Debug, Clone, Copy, PartialEq, Eq, Structural)]
pub enum SubscriptionKind {
    Core,
    Plus,
}

/// How far a user is from the limit of saved items of their plan.
#[derive(Debug, Clone, Copy, PartialEq, Eq, Structural)]
pub struct SubscriptionInfo {
    pub limit_reached: bool,
    /// Items the user may still save; none for plans without a limit.
    pub items_remaining: Option<i64>,
}

/// The standing of a user with `count` saved items against the `limit` of
/// the core plan. Paid plans have no limit; a user without a subscription
/// may save nothing. The count is read for core users only.
pub fn subscription_info(subscription: Option<SubscriptionKind>, count: i64, limit: i64) -> (res: SubscriptionInfo)
    requires
        subscription == Some(SubscriptionKind::Core) ==> i64::MIN <= limit - count <= i64::MAX,
    ensures
        subscription is None ==> res == (SubscriptionInfo { limit_reached: true, items_remaining: Some(0) }),
        subscription == Some(SubscriptionKind::Plus) ==> res == (SubscriptionInfo { limit_reached: false, items_remaining: None }),
        subscription == Some(SubscriptionKind::Core) ==> res == (SubscriptionInfo {
            limit_reached: count >= limit,
            items_remaining: Some((limit - count) as i64),
        }),
{
    match subscription {
        None => SubscriptionInfo { limit_reached: true, items_remaining: Some(0) },
        Some(SubscriptionKind::Plus) => SubscriptionInfo { limit_reached: false, items_remaining: None },
        Some(SubscriptionKind::Core) => SubscriptionInfo {
            limit_reached: count >= limit,
            items_remaining: Some(limit - count),
        },
    }
}

/// What a saved document's metadata says of it, where it could be read: its
/// parents and its address.
#[derive(Debug, Clone)]
pub struct SavedDocumentMeta {
    pub parents: Option<Vec<CollectionParent>>,
    pub mdn_url: Option<String>,
}

} // verus!
