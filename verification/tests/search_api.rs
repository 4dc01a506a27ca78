use rumba::api::search::{count_request, search_request, DOCS_INDEX};
use rumba::api::search::elastic_failure;
use rumba::api::common::{browser_compat_paths, document_fetch_error, document_metadata_url, BodyElement, GeneratedChunk};
use rumba::api::elastic::{Locale, SortField, Order};
use rumba::api::error::{ApiError, ErrorBody, SearchError};
use rumba::api::search::{check_params, count_body, default_page, search_body, suggest_for, suggestion_from_count, Sort};

#[test]
fn search_params_are_checked() {
    match check_params("q".into(), Sort::Best, 0, &vec![]) {
        Err(SearchError::Query { key, message }) => {
            assert_eq!(key, "page");
            assert_eq!(message, "Ensure this value is greater than or equal to 1.");
        }
        _ => panic!(),
    }
    assert!(matches!(check_params("q".into(), Sort::Best, 11, &vec![]), Err(SearchError::Query { .. })));
    let p = check_params("q".into(), Sort::Best, default_page(), &vec![]).unwrap();
    assert_eq!(p.locale, vec![Locale::English]);
    let p = check_params("q".into(), Sort::Best, 2, &vec!["DE".into(), "pt-BR".into()]).unwrap();
    assert_eq!(p.locale, vec![Locale::German, Locale::PortugueseBrazilian]);
    match check_params("q".into(), Sort::Best, 1, &vec!["xx".into()]) {
        Err(SearchError::Query { key, message }) => {
            assert_eq!(key, "locale");
            assert!(message.starts_with("unknown variant `xx`"));
        }
        _ => panic!(),
    }
}

#[test]
fn suggestions_only_for_simple_queries() {
    assert!(suggest_for(&"fetch api".to_string()).is_some());
    assert!(suggest_for(&"x".repeat(101)).is_none());
    assert!(suggest_for(&"a".repeat(31)).is_none());
    assert!(suggestion_from_count("f".into(), Some(0)).is_none());
    assert_eq!(suggestion_from_count("f".into(), Some(3)).unwrap().total.value, 3);
}

#[test]
fn search_bodies_page_and_sort() {
    let p = check_params("flex".into(), Sort::Popularity, 3, &vec![]).unwrap();
    let body = search_body(&p);
    assert_eq!((body.from, body.size), (20, 10));
    assert_eq!(body.sort, Some(vec![SortField::Popularity(Order::Desc), SortField::Score(Order::Desc)]));
    let c = count_body("flex", &vec![Locale::French]);
    let _ = c.query;
}

#[test]
fn api_errors_answer_with_their_status() {
    assert_eq!(ApiError::DocumentNotFound.status_code(), 404);
    assert_eq!(ApiError::Unauthorized.status_code(), 401);
    assert_eq!(ApiError::ServerError.status_code(), 500);
    assert_eq!(ApiError::CollectionNotFound("7".into()).message(), "Collection with id 7 not found");
    assert_eq!(ApiError::Generic("boom".into()).name(), "boom");
    match ApiError::ServerError.error_response() {
        ErrorBody::Standard { code, message, .. } => {
            assert_eq!(code, 500);
            assert_eq!(message, "internal server error");
        }
        _ => panic!(),
    }
    match ApiError::Search(SearchError::Query { key: "page".into(), message: "m".into() }).error_response() {
        ErrorBody::QueryErrors { key, message } => assert_eq!((key.as_str(), message.as_str()), ("page", "m")),
        _ => panic!(),
    }
}

#[test]
fn document_metadata_helpers() {
    assert_eq!(document_metadata_url("https://x", "/en-US/docs/A"), "https://x/en-US/docs/A/index.json");
    assert!(matches!(document_fetch_error(Some(404)), ApiError::DocumentNotFound));
    assert!(matches!(document_fetch_error(Some(500)), ApiError::Unknown));
    let body = vec![
        BodyElement { typ: Some("browser_compatibility".into()), query: Some("api.fetch".into()) },
        BodyElement { typ: Some("prose".into()), query: None },
    ];
    assert_eq!(browser_compat_paths(&body), vec!["api.fetch".to_string()]);
    assert_eq!(GeneratedChunk::default().id, 1);
}

#[test]
fn locale_codes_round_trip() {
    for l in [Locale::English, Locale::German, Locale::ChineseTraditional] {
        assert_eq!(Locale::from_code(l.as_str()), Some(l));
    }
}

#[test]
fn backend_failures() {
    match elastic_failure(Some("too complex".into()), "500".into()) {
        SearchError::ElasticContext { reason, source } => assert_eq!((reason.as_str(), source.as_str()), ("too complex", "500")),
        _ => panic!(),
    }
    assert!(matches!(elastic_failure(None, "x".into()), SearchError::ParseResponse));
}

#[test]
fn searches_and_counts_go_to_the_docs_index() {
    let p = check_params("flex box".into(), Sort::Best, 1, &vec![]).unwrap();
    let r = search_request(&p);
    assert_eq!(r.index, "mdn_docs");
    assert_eq!(DOCS_INDEX, "mdn_docs");
    assert_eq!((r.body.from, r.body.size), (0, 10));
    assert_eq!(r.body.sort, None);
    assert_eq!(count_request("flex", &vec![Locale::French]).index, "mdn_docs");
}
