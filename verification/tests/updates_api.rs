use rumba::api::updates::{
    batch_ranges, browser_and_release_rows, feature_rows, release_changes, update_inserts, BrowserEntry,
    ChangePart, Date, FeatureEntry, IdCache, ReleaseEntry, StatusEntry,
};
use rumba::api::v2::updates::{
    array_like, check_updates_access, group_updates, query_contains_restricted_filters, watched_query,
    BcdUpdateEventType, BcdUpdateRow, BcdUpdatesQueryParams, Event,
};
use rumba::api::error::ApiError;

fn release(id: &str, date: Option<&str>) -> ReleaseEntry {
    ReleaseEntry {
        release_id: id.into(),
        engine: Some("Gecko".into()),
        engine_version: None,
        release_date: date.map(String::from),
        release_notes: None,
        status: Some("current".into()),
    }
}

fn browser(name: &str, releases: Vec<ReleaseEntry>) -> BrowserEntry {
    BrowserEntry {
        name: name.into(),
        accepts_flags: true,
        accepts_webextensions: false,
        pref_url: None,
        preview_name: None,
        releases,
    }
}

#[test]
fn releases_stop_at_the_first_without_a_date() {
    let browsers = vec![
        browser("firefox", vec![release("1", Some("2004-11-09")), release("2", None), release("3", Some("2008-06-17"))]),
        browser("chrome", vec![release("1", Some("2008-12-11"))]),
    ];
    let (b, r) = browser_and_release_rows(&browsers).unwrap();
    assert_eq!(b.len(), 2);
    assert_eq!(r.len(), 2);
    assert_eq!(r[0].browser, "firefox");
    assert_eq!(r[0].release_date, Date { year: 2004, month: 11, day: 9 });
    assert_eq!(r[0].engine, "Gecko");
    assert_eq!(r[0].engine_version, "Unknown");
    assert_eq!(r[1].browser, "chrome");
}

#[test]
fn an_unreadable_date_fails_the_import() {
    let browsers = vec![browser("firefox", vec![release("1", Some("2004-13-45"))])];
    assert!(browser_and_release_rows(&browsers).is_none());
}

#[test]
fn features_without_source_file_are_skipped() {
    let features = vec![
        FeatureEntry { path: Some("api.A".into()), mdn_url: None, source_file: Some("a.json".into()), spec_url: None,
            status: Some(StatusEntry { deprecated: Some(false), experimental: None, standard_track: Some(true) }) },
        FeatureEntry { path: Some("api.B".into()), mdn_url: None, source_file: None, spec_url: None, status: None },
    ];
    let rows = feature_rows(&features);
    assert_eq!(rows.len(), 1);
    assert_eq!(rows[0].path, "api.A");
    assert_eq!(rows[0].deprecated, Some(false));
    assert_eq!(rows[0].experimental, None);
}

#[test]
fn features_are_written_in_batches_of_a_thousand() {
    assert_eq!(batch_ranges(2500), vec![(0, 1000), (1000, 2000), (2000, 2500)]);
    assert_eq!(batch_ranges(1000), vec![(0, 1000)]);
    assert!(batch_ranges(0).is_empty());
}

fn part(browser: Option<(&str, &str)>, added: Option<Vec<&str>>, removed: Option<Vec<&str>>) -> ChangePart {
    ChangePart {
        browser: browser.map(|b| b.0.to_string()),
        version: browser.map(|b| b.1.to_string()),
        added: added.map(|v| v.into_iter().map(String::from).collect()),
        removed: removed.map(|v| v.into_iter().map(String::from).collect()),
    }
}

#[test]
fn release_changes_key_pads_the_version() {
    let parts = vec![part(Some(("firefox", "1")), None, None), part(None, Some(vec![]), None), part(None, Some(vec!["api.A"]), None)];
    let c = release_changes(&parts).unwrap();
    assert_eq!(c.key, "firefox-1 ");
    assert_eq!(c.added, Some(vec!["api.A".to_string()]));
    assert_eq!(c.removed, None);
    let long = vec![part(Some(("chrome", "100")), None, Some(vec!["api.B"]))];
    assert_eq!(release_changes(&long).unwrap().key, "chrome-100");
    let nothing = vec![part(Some(("safari", "2")), Some(vec![]), None)];
    assert!(release_changes(&nothing).is_none());
}

#[test]
fn the_cache_gives_back_what_was_stored() {
    let mut cache = IdCache::new();
    assert_eq!(cache.get("a"), None);
    cache.insert("a".into(), 1);
    cache.insert("b".into(), 2);
    cache.insert("a".into(), 3);
    assert_eq!(cache.get("a"), Some(3));
    assert_eq!(cache.get("b"), Some(2));
}

#[test]
fn update_rows_carry_the_release() {
    let rows = update_inserts(7, BcdUpdateEventType::RemovedStable, &vec![1, 2]);
    assert_eq!(rows.len(), 2);
    assert_eq!((rows[1].browser_release, rows[1].document_id, rows[1].feature), (7, 1, 2));
}

fn row(browser: &str, version: &str, events: Vec<(&str, BcdUpdateEventType)>) -> BcdUpdateRow {
    BcdUpdateRow {
        browser: browser.into(),
        engine_version: "1".into(),
        engine: "Blink".into(),
        name: browser.to_uppercase(),
        release_date: "2024-01-01".into(),
        release_id: version.into(),
        compat: events
            .into_iter()
            .map(|(p, t)| Event { path: p.into(), mdn_url: None, source_file: None, spec_url: None, status: None, event_type: t })
            .collect(),
    }
}

#[test]
fn neighbouring_rows_of_a_release_are_grouped() {
    let (added, removed, other) = (BcdUpdateEventType::AddedStable, BcdUpdateEventType::RemovedStable, BcdUpdateEventType::Other);
    let rows = vec![
        row("chrome", "120", vec![("a", added), ("b", removed)]),
        row("chrome", "120", vec![("c", added), ("d", other)]),
        row("firefox", "121", vec![("e", removed)]),
        row("chrome", "120", vec![("f", added)]),
    ];
    let updates = group_updates(rows);
    assert_eq!(updates.len(), 3);
    let first = &updates[0];
    assert_eq!(first.browser.as_ref().unwrap().browser, "chrome");
    assert_eq!(first.browser.as_ref().unwrap().version, "120");
    assert_eq!(first.browser.as_ref().unwrap().release_notes, "");
    let added: Vec<&str> = first.events.added.iter().map(|f| f.path.as_str()).collect();
    assert_eq!(added, vec!["a", "c"]);
    assert_eq!(first.events.removed.len(), 1);
    assert_eq!(updates[1].events.removed[0].path, "e");
    assert_eq!(updates[2].events.added[0].path, "f");
}

fn query() -> BcdUpdatesQueryParams {
    BcdUpdatesQueryParams { browsers: None, category: None, page: Some(2), q: None, show: None, sort: None }
}

#[test]
fn filters_need_a_login() {
    let q = query();
    assert!(!query_contains_restricted_filters(&q));
    assert!(check_updates_access(false, &q).is_ok());
    let w = watched_query(q);
    assert_eq!(w.show.as_deref(), Some("watched"));
    assert!(query_contains_restricted_filters(&w));
    match check_updates_access(false, &w) {
        Err(ApiError::LoginRequiredForFeature(f)) => assert_eq!(f, "BCD Filters"),
        _ => panic!("expected a login requirement"),
    }
    assert!(check_updates_access(true, &w).is_ok());
}

#[test]
fn array_like_splits_on_commas() {
    assert_eq!(array_like(Some("chrome,firefox".into())), Some(vec!["chrome".to_string(), "firefox".to_string()]));
    assert_eq!(array_like(None), None);
}
