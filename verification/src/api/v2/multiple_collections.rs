//! Named collections of saved documents: the checks on what users send, the
//! plan limit on collections, and the answers to conflicts.

use vstd::prelude::*;

use crate::api::common::{CollectionParent, SubscriptionKind, Timestamp};
use crate::api::error::ApiError;
use crate::text::{chars_of, push_str, str_eq, to_owned_string};
use crate::api::v2::collection_items::CollectionItemAndDocumentQuery;

verus! {

/// A request to save a document into a collection.
#[derive(Debug, Clone)]
pub struct CollectionItemCreationRequest {
    pub title: String,
    pub url: String,
    pub notes: Option<String>,
}

/// A request to change a saved document's title and notes.
#[derive(Debug, Clone)]
pub struct CollectionItemModificationRequest {
    pub title: String,
    pub notes: Option<String>,
}

/// A request to create or rename a collection.
#[derive(Debug, Clone)]
pub struct MultipleCollectionCreationRequest {
    pub name: String,
    pub description: Option<String>,
}

/// The document looked up among the collections.
#[derive(Debug, Clone)]
pub struct MultipleCollectionLookupQueryParams {
    pub url: String,
}

/// The answer to a conflicting or refused change.
#[derive(Debug, Clone)]
pub struct ConflictResponse {
    pub error: String,
}

/// A collection and an item of it, by id.
#[derive(Debug, Clone, Copy, PartialEq, Eq, Structural)]
pub struct CollectionAndItemId {
    pub collection_id: i64,
    pub item_id: i64,
}

/// A collection and an item of it, by their ids as the API writes them.
#[derive(Debug, Clone)]
pub struct EncodedCollectionAndItemId {
    pub collection_id: String,
    pub item_id: String,
}

/// A field that failed its check, with the check's message where it has one.
#[derive(Debug, Clone)]
pub struct FieldError {
    pub field: String,
    pub message: Option<String>,
}

/// A field error as plain values.
pub open spec fn field_error_view(e: FieldError) -> (Seq<char>, Option<Seq<char>>) {
    (e.field@, match e.message { Some(m) => Some(m@), None => None })
}

/// The field errors as plain values.
pub open spec fn field_errors_view(es: Seq<FieldError>) -> Seq<(Seq<char>, Option<Seq<char>>)> {
    es.map_values(|e: FieldError| field_error_view(e))
}

/// Whether a text has between 1 and 1024 characters.
pub open spec fn short_text_ok(s: Seq<char>) -> bool {
    1 <= s.len() <= 1024
}

/// Whether an optional text has at most 65536 characters.
pub open spec fn long_text_ok(o: Option<String>) -> bool {
    match o {
        Some(t) => t@.len() <= 65536,
        None => true,
    }
}

/// The error of a field, if its check failed.
pub open spec fn check(ok: bool, field: Seq<char>, message: Option<Seq<char>>) -> Seq<(Seq<char>, Option<Seq<char>>)> {
    if ok {
        Seq::empty()
    } else {
        seq![(field, message)]
    }
}

fn short_ok(s: &str) -> (res: bool)
    ensures
        res == short_text_ok(s@),
{
    let n = chars_of(s).len();
    1 <= n && n <= 1024
}

fn long_ok(o: &Option<String>) -> (res: bool)
    ensures
        res == long_text_ok(*o),
{
    match o {
        Some(t) => chars_of(t.as_str()).len() <= 65536,
        None => true,
    }
}

fn push_error(errors: &mut Vec<FieldError>, field: &str, message: Option<&str>)
    ensures
        field_errors_view(final(errors)@) == field_errors_view(old(errors)@).push(
            (field@, match message { Some(m) => Some(m@), None => None })),
{
    let e = FieldError {
        field: to_owned_string(field),
        message: match message {
            Some(m) => Some(to_owned_string(m)),
            None => None,
        },
    };
    let ghost before = errors@;
    errors.push(e);
    proof {
        assert(field_errors_view(errors@) =~= field_errors_view(before).push(field_error_view(e)));
    }
}

/// The message of the title check.
pub open spec fn title_message() -> Seq<char> {
    "'title' must be between 1 and 1024 chars"@
}

/// The message of the notes check.
pub open spec fn notes_message() -> Seq<char> {
    "'notes' must not be longer than 65536 chars"@
}

/// Checks a request to save a document: a title and an address of 1 to 1024
/// characters, notes of at most 65536. The errors name the failing fields in
/// that order.
pub fn validate_item_creation(req: &CollectionItemCreationRequest) -> (res: Result<(), Vec<FieldError>>)
    ensures
        ({
            let errors = check(short_text_ok(req.title@), "title"@, Some(title_message()))
                + check(short_text_ok(req.url@), "url"@, None)
                + check(long_text_ok(req.notes), "notes"@, Some(notes_message()));
            &&& errors.len() == 0 ==> res is Ok
            &&& errors.len() > 0 ==> (res matches Err(es) && field_errors_view(es@) == errors)
        }),
{
    let mut errors: Vec<FieldError> = Vec::new();
    if !short_ok(req.title.as_str()) {
        push_error(&mut errors, "title", Some("'title' must be between 1 and 1024 chars"));
    }
    if !short_ok(req.url.as_str()) {
        push_error(&mut errors, "url", None);
    }
    if !long_ok(&req.notes) {
        push_error(&mut errors, "notes", Some("'notes' must not be longer than 65536 chars"));
    }
    proof {
        let errs = check(short_text_ok(req.title@), "title"@, Some(title_message()))
            + check(short_text_ok(req.url@), "url"@, None)
            + check(long_text_ok(req.notes), "notes"@, Some(notes_message()));
        assert(field_errors_view(errors@) =~= errs);
    }
    if errors.len() == 0 {
        Ok(())
    } else {
        Err(errors)
    }
}

/// Checks a request to change a saved document: a title of 1 to 1024
/// characters, notes of at most 65536.
pub fn validate_item_modification(req: &CollectionItemModificationRequest) -> (res: Result<(), Vec<FieldError>>)
    ensures
        ({
            let errors = check(short_text_ok(req.title@), "title"@, Some(title_message()))
                + check(long_text_ok(req.notes), "notes"@, Some(notes_message()));
            &&& errors.len() == 0 ==> res is Ok
            &&& errors.len() > 0 ==> (res matches Err(es) && field_errors_view(es@) == errors)
        }),
{
    let mut errors: Vec<FieldError> = Vec::new();
    if !short_ok(req.title.as_str()) {
        push_error(&mut errors, "title", Some("'title' must be between 1 and 1024 chars"));
    }
    if !long_ok(&req.notes) {
        push_error(&mut errors, "notes", Some("'notes' must not be longer than 65536 chars"));
    }
    proof {
        let errs = check(short_text_ok(req.title@), "title"@, Some(title_message()))
            + check(long_text_ok(req.notes), "notes"@, Some(notes_message()));
        assert(field_errors_view(errors@) =~= errs);
    }
    if errors.len() == 0 {
        Ok(())
    } else {
        Err(errors)
    }
}

/// The message of the name check.
pub open spec fn name_message() -> Seq<char> {
    "'name' must be between 1 and 1024 chars"@
}

/// The message of the description check.
pub open spec fn description_message() -> Seq<char> {
    "'description' must not be longer than 65536 chars"@
}

/// Checks a request to create or rename a collection: a name of 1 to 1024
/// characters, a description of at most 65536.
pub fn validate_collection(req: &MultipleCollectionCreationRequest) -> (res: Result<(), Vec<FieldError>>)
    ensures
        ({
            let errors = check(short_text_ok(req.name@), "name"@, Some(name_message()))
                + check(long_text_ok(req.description), "description"@, Some(description_message()));
            &&& errors.len() == 0 ==> res is Ok
            &&& errors.len() > 0 ==> (res matches Err(es) && field_errors_view(es@) == errors)
        }),
{
    let mut errors: Vec<FieldError> = Vec::new();
    if !short_ok(req.name.as_str()) {
        push_error(&mut errors, "name", Some("'name' must be between 1 and 1024 chars"));
    }
    if !long_ok(&req.description) {
        push_error(&mut errors, "description", Some("'description' must not be longer than 65536 chars"));
    }
    proof {
        let errs = check(short_text_ok(req.name@), "name"@, Some(name_message()))
            + check(long_text_ok(req.description), "description"@, Some(description_message()));
        assert(field_errors_view(errors@) =~= errs);
    }
    if errors.len() == 0 {
        Ok(())
    } else {
        Err(errors)
    }
}

/// The number of collections a core user may have.
pub const CORE_COLLECTIONS_LIMIT: i64 = 3;

/// Whether a user may create another collection: core users have at most
/// three.
pub fn check_collection_limit(count: i64, subscription: Option<SubscriptionKind>) -> (res: Result<(), ApiError>)
    ensures
        (count >= 3 && subscription == Some(SubscriptionKind::Core))
            ==> res matches Err(ApiError::MultipleCollectionSubscriptionLimitReached),
        !(count >= 3 && subscription == Some(SubscriptionKind::Core)) ==> res is Ok,
{
    let core = match subscription {
        Some(SubscriptionKind::Core) => true,
        _ => false,
    };
    if count >= CORE_COLLECTIONS_LIMIT && core {
        Err(ApiError::MultipleCollectionSubscriptionLimitReached)
    } else {
        Ok(())
    }
}

/// The answer when a collection of that name exists.
pub fn name_conflict(name: &str) -> (res: ConflictResponse)
    ensures
        res.error@ == "Collection with name '"@ + name@ + "' already exists"@,
{
    let mut error = to_owned_string("Collection with name '");
    push_str(&mut error, name);
    push_str(&mut error, "' already exists");
    ConflictResponse { error }
}

/// The answer when the document is already in the collection.
pub fn item_conflict() -> (res: ConflictResponse)
    ensures
        res.error@ == "Collection item already exists in collection"@,
{
    ConflictResponse { error: to_owned_string("Collection item already exists in collection") }
}

/// The refusal of a change of the default collection: its notes may change,
/// its name may not.
pub fn default_collection_change(is_default: bool, new_name: &str) -> (res: Option<ConflictResponse>)
    ensures
        (is_default && new_name@ != "Default"@) ==> (res matches Some(c) && c.error@ == "Cannot modify default collection"@),
        !(is_default && new_name@ != "Default"@) ==> res is None,
{
    if is_default && !str_eq(new_name, "Default") {
        Some(ConflictResponse { error: to_owned_string("Cannot modify default collection") })
    } else {
        None
    }
}

/// The refusal of a deletion of the default collection.
pub fn default_collection_deletion(is_default: bool) -> (res: Option<ConflictResponse>)
    ensures
        is_default ==> (res matches Some(c) && c.error@ == "Cannot delete default collection"@),
        !is_default ==> res is None,
{
    if is_default {
        Some(ConflictResponse { error: to_owned_string("Cannot delete default collection") })
    } else {
        None
    }
}

/// A collection as the store has it.
#[derive(Debug, Clone)]
pub struct MultipleCollectionsQuery {
    pub id: i64,
    pub name: String,
    pub notes: Option<String>,
    pub created_at: Timestamp,
    pub updated_at: Timestamp,
    pub collection_item_count: Option<i64>,
}

/// A collection as it is shown, with its id as the API writes it.
#[derive(Debug, Clone)]
pub struct MultipleCollectionInfo {
    pub id: String,
    pub name: String,
    pub description: Option<String>,
    pub created_at: Timestamp,
    pub updated_at: Timestamp,
    pub article_count: i64,
}

impl MultipleCollectionInfo {
    /// How a collection is shown: its notes are its description, and a
    /// collection without a count has no articles.
    pub fn from(collection: MultipleCollectionsQuery, encoded_id: String) -> (res: MultipleCollectionInfo)
        ensures
            res.id == encoded_id,
            res.name == collection.name,
            res.description == collection.notes,
            res.created_at == collection.created_at,
            res.updated_at == collection.updated_at,
            res.article_count == (match collection.collection_item_count { Some(c) => c, None => 0 }),
    {
        MultipleCollectionInfo {
            id: encoded_id,
            name: collection.name,
            description: collection.notes,
            created_at: collection.created_at,
            updated_at: collection.updated_at,
            article_count: match collection.collection_item_count {
                Some(c) => c,
                None => 0,
            },
        }
    }
}

/// A saved document of a collection as it is shown, with its id as the API
/// writes it.
#[derive(Debug, Clone)]
pub struct CollectionItem {
    pub id: String,
    pub url: String,
    pub title: String,
    pub notes: Option<String>,
    pub parents: Vec<CollectionParent>,
    pub created_at: Timestamp,
    pub updated_at: Timestamp,
}

/// The title shown: a non-empty name given by the user, else the document's
/// title; nothing without metadata.
pub open spec fn item_title(row: CollectionItemAndDocumentQuery) -> Seq<char> {
    if row.metadata is None {
        Seq::empty()
    } else if row.custom_name matches Some(n) && n@.len() > 0 {
        row.custom_name->0@
    } else {
        row.title@
    }
}

impl CollectionItem {
    /// How a saved document of a collection is shown.
    pub fn from(row: CollectionItemAndDocumentQuery, encoded_id: String) -> (res: CollectionItem)
        ensures
            res.id == encoded_id,
            res.url@ == crate::api::v2::collection_items::listed_url(row),
            res.title@ == item_title(row),
            res.notes == row.notes,
            res.parents@ == crate::api::v2::collection_items::listed_parents(row),
            res.created_at == row.created_at,
            res.updated_at == row.updated_at,
    {
        let (parents, title, url) = match row.metadata {
            Some(m) => {
                let title = match row.custom_name {
                    Some(n) => if !n.as_str().is_empty() { n } else { row.title },
                    None => row.title,
                };
                let url = match m.mdn_url {
                    Some(u) => u,
                    None => row.uri,
                };
                let parents = match m.parents {
                    Some(p) => p,
                    None => Vec::new(),
                };
                (parents, title, url)
            },
            None => (Vec::new(), String::new(), row.uri),
        };
        CollectionItem {
            id: encoded_id,
            url,
            title,
            notes: row.notes,
            parents,
            created_at: row.created_at,
            updated_at: row.updated_at,
        }
    }
}

/// A collection and its saved documents.
#[derive(Debug, Clone)]
pub struct MultipleCollectionResponse {
    pub info: MultipleCollectionInfo,
    pub items: Vec<CollectionItem>,
}

/// A collection that holds a document, and the saved document.
#[derive(Debug, Clone)]
pub struct LookupEntry {
    pub collection_id: String,
    pub item: CollectionItem,
}

/// The collections that hold a document.
#[derive(Debug, Clone)]
pub struct MultipleCollectionLookupQueryResponse {
    pub results: Vec<LookupEntry>,
}

} // verus!
