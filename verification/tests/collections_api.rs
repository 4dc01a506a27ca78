use rumba::api::collections::{
    form_action, limit_reached_after_delete, limit_reached_after_save, save_allowed, undelete_outcome,
    CollectionAndDocumentQuery, CollectionCreationForm, CollectionCreationOrDeletionForm, CollectionDeletionForm,
    CollectionItem, FormAction, UndeleteOutcome,
};
use rumba::api::common::{subscription_info, CollectionParent, SavedDocumentMeta, SubscriptionInfo, SubscriptionKind, Timestamp};
use rumba::api::error::ApiError;
use rumba::api::v2::multiple_collections::{
    check_collection_limit, default_collection_change, default_collection_deletion, item_conflict, name_conflict,
    validate_collection, validate_item_creation, CollectionItemCreationRequest, MultipleCollectionCreationRequest,
};
use rumba::api::watched_items::{limit_refusal, watch_action, watched_response, UpdateWatchedItemFormData, WatchAction, WatchedItem, WatchedItemsQuery};

const T: Timestamp = Timestamp { seconds: 0, nanos: 0 };

fn saved(custom_name: Option<&str>, metadata: Option<SavedDocumentMeta>) -> CollectionAndDocumentQuery {
    CollectionAndDocumentQuery {
        id: 4,
        uri: "/en-US/docs/A".into(),
        title: "A".into(),
        custom_name: custom_name.map(String::from),
        notes: None,
        metadata,
        created_at: T,
    }
}

#[test]
fn saved_documents_show_the_users_name() {
    let meta = || Some(SavedDocumentMeta {
        parents: Some(vec![CollectionParent { uri: "/p".into(), title: "P".into() }]),
        mdn_url: Some("/en-US/docs/B".into()),
    });
    let item = CollectionItem::from(saved(Some("Mine"), meta()));
    assert_eq!(item.title, "Mine");
    assert_eq!(item.url, "/en-US/docs/B");
    assert_eq!(item.parents.len(), 1);
    assert_eq!(CollectionItem::from(saved(Some(""), meta())).title, "A");
    let bare = CollectionItem::from(saved(Some("Mine"), None));
    assert_eq!(bare.title, "");
    assert_eq!(bare.url, "/en-US/docs/A");
}

#[test]
fn forms_are_read_case_insensitively() {
    let del = |s: &str| CollectionCreationOrDeletionForm::Deletion(CollectionDeletionForm { delete: s.into() });
    assert!(matches!(form_action(del("TRUE")), FormAction::Delete));
    assert!(matches!(form_action(del("False")), FormAction::Undelete));
    assert!(matches!(form_action(del("maybe")), FormAction::BadRequest));
    let create = CollectionCreationOrDeletionForm::Creation(CollectionCreationForm { name: "n".into(), notes: None });
    assert!(matches!(form_action(create), FormAction::Save(f) if f.name == "n"));
}

#[test]
fn plan_limits() {
    assert_eq!(subscription_info(None, 0, 3), SubscriptionInfo { limit_reached: true, items_remaining: Some(0) });
    assert_eq!(subscription_info(Some(SubscriptionKind::Plus), 99, 3), SubscriptionInfo { limit_reached: false, items_remaining: None });
    assert_eq!(subscription_info(Some(SubscriptionKind::Core), 2, 3), SubscriptionInfo { limit_reached: false, items_remaining: Some(1) });
    assert_eq!(subscription_info(Some(SubscriptionKind::Core), 3, 3), SubscriptionInfo { limit_reached: true, items_remaining: Some(0) });
    assert!(!save_allowed(false, Some(0)));
    assert!(save_allowed(true, Some(0)));
    assert!(save_allowed(false, None));
    assert!(limit_reached_after_save(Some(1), 3));
    assert!(!limit_reached_after_save(None, 3));
    let info = SubscriptionInfo { limit_reached: false, items_remaining: Some(1) };
    assert_eq!(undelete_outcome(info, true), UndeleteOutcome { ok: true, subscription_limit_reached: true });
    assert_eq!(undelete_outcome(info, false), UndeleteOutcome { ok: true, subscription_limit_reached: false });
    let full = SubscriptionInfo { limit_reached: true, items_remaining: Some(0) };
    assert_eq!(undelete_outcome(full, true), UndeleteOutcome { ok: false, subscription_limit_reached: true });
    assert!(limit_reached_after_delete(SubscriptionInfo { limit_reached: true, items_remaining: Some(-1) }));
    assert!(!limit_reached_after_delete(full));
}

#[test]
fn collection_requests_are_checked() {
    let ok = CollectionItemCreationRequest { title: "t".into(), url: "/u".into(), notes: None };
    assert!(validate_item_creation(&ok).is_ok());
    let bad = CollectionItemCreationRequest { title: "".into(), url: "x".repeat(1025), notes: Some("n".repeat(65537)) };
    let errors = validate_item_creation(&bad).unwrap_err();
    let fields: Vec<&str> = errors.iter().map(|e| e.field.as_str()).collect();
    assert_eq!(fields, vec!["title", "url", "notes"]);
    assert_eq!(errors[0].message.as_deref(), Some("'title' must be between 1 and 1024 chars"));
    assert_eq!(errors[1].message, None);
    let wide = CollectionItemCreationRequest { title: "é".repeat(1024), url: "/u".into(), notes: None };
    assert!(validate_item_creation(&wide).is_ok());
    let unnamed = MultipleCollectionCreationRequest { name: "".into(), description: None };
    assert_eq!(validate_collection(&unnamed).unwrap_err()[0].message.as_deref(), Some("'name' must be between 1 and 1024 chars"));
}

#[test]
fn core_users_have_three_collections() {
    assert!(matches!(check_collection_limit(3, Some(SubscriptionKind::Core)), Err(ApiError::MultipleCollectionSubscriptionLimitReached)));
    assert!(check_collection_limit(2, Some(SubscriptionKind::Core)).is_ok());
    assert!(check_collection_limit(10, Some(SubscriptionKind::Plus)).is_ok());
}

#[test]
fn conflict_answers() {
    assert_eq!(name_conflict("Reading").error, "Collection with name 'Reading' already exists");
    assert_eq!(item_conflict().error, "Collection item already exists in collection");
    assert_eq!(default_collection_change(true, "Other").unwrap().error, "Cannot modify default collection");
    assert!(default_collection_change(true, "Default").is_none());
    assert_eq!(default_collection_deletion(true).unwrap().error, "Cannot delete default collection");
}

#[test]
fn watched_items() {
    let row = WatchedItemsQuery { user_id: 1, document_id: 2, uri: "/u".into(), title: "T".into(), paths: vec![None] };
    let item = WatchedItem::from(row);
    assert_eq!(item.path, "/u");
    assert_eq!(item.status, "major");
    let row = WatchedItemsQuery { user_id: 1, document_id: 2, uri: "/u".into(), title: "T".into(), paths: vec![Some("/p".into())] };
    assert_eq!(WatchedItem::from(row).path, "/p");
    let form = UpdateWatchedItemFormData { unwatch: Some(true), title: None, path: None };
    assert_eq!(watch_action(&form), WatchAction::Unwatch);
    let refusal = limit_refusal(3);
    assert_eq!(refusal.error.as_deref(), Some("max_subscriptions"));
    let info = SubscriptionInfo { limit_reached: false, items_remaining: Some(1) };
    assert!(watched_response(info, 1).subscription_limit_reached);
    assert!(!watched_response(info, 0).subscription_limit_reached);
}
