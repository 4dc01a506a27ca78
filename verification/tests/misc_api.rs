use rumba::ai::help::RefDoc;
use rumba::ai::helpers::{ChatMessage, Role};
use rumba::ai_test::{json_path, md_path, prompt_messages, storage_markdown, zero_padded_text};
use rumba::api::common::SubscriptionKind;
use rumba::api::newsletter::{
    lookup_subscribed, newsletter_sync, subscription_source_url, unsubscribe_step, TokenLookup, UnsubscribeStep, UserLookup,
};
use rumba::api::error::ApiError;
use rumba::api::ping::{activity_data, PingQuery};
use rumba::api::root::{root_change_outcome, RootOutcome};
use rumba::api::search::locale_query_values;
use rumba::api::settings::{settings_insert, SettingUpdateRequest, Settings, SettingsResponse};
use rumba::api::whoami::{geo_info, whoami_response, Header, UserInfo};
use rumba::api::user_middleware::user_of_request;

#[test]
fn result_files_are_numbered_with_two_digits() {
    assert_eq!(json_path("/tmp/test", 5), "/tmp/test/05.json");
    assert_eq!(md_path("/tmp/test/", 12), "/tmp/test/12.md");
    assert_eq!(md_path("", 123), "123.md");
    assert_eq!(zero_padded_text(0, 2), "00");
}

#[test]
fn test_prompts_become_user_messages() {
    let m = prompt_messages(vec!["a".into(), "b".into()]);
    assert_eq!(m.len(), 2);
    assert_eq!(m[1].role, Role::User);
    assert_eq!(m[1].content.as_deref(), Some("b"));
}

#[test]
fn markdown_report() {
    let messages = vec![ChatMessage::new(Role::User, "q".into())];
    let refs = vec![RefDoc { url: "/u".into(), title: "T".into() }];
    let answer = Some(ChatMessage::new(Role::Assistant, "a".into()));
    assert_eq!(
        storage_markdown(&messages, &answer, &refs),
        "user:\n---\n---\nq\n---\n---\nassistant:\n---\n---\na\n---\n---\n[T](/u)"
    );
    assert_eq!(storage_markdown(&vec![], &None, &vec![]), "**no response**\n---\n---\n");
}

#[test]
fn country_headers() {
    let none = Header::Absent;
    let geo = geo_info(&Header::Text("DE".into()), &Header::Text("FR".into()), &none, Some("Germany".into()));
    assert_eq!((geo.country_iso.as_str(), geo.country.as_str()), ("DE", "Germany"));
    let geo = geo_info(&Header::Unreadable, &Header::Text("FR".into()), &Header::Text("Frankreich".into()), None);
    assert_eq!((geo.country_iso.as_str(), geo.country.as_str()), ("ZZ", "Frankreich"));
    let geo = geo_info(&none, &Header::Text("FR".into()), &none, None);
    assert_eq!((geo.country_iso.as_str(), geo.country.as_str()), ("FR", "Unknown"));
}

#[test]
fn whoami_for_anonymous_and_users() {
    let geo = || geo_info(&Header::Absent, &Header::Absent, &Header::Absent, None);
    let anon = whoami_response(geo(), None);
    assert!(anon.username.is_none() && anon.is_authenticated.is_none());
    assert_eq!(anon.geo.unwrap().country_iso, "ZZ");
    let settings = Settings { locale_override: None, mdnplus_newsletter: true, no_ads: false, ai_help_history: false };
    let user = UserInfo {
        fxa_uid: "uid".into(),
        email: "a@b.c".into(),
        avatar_url: None,
        is_subscriber: false,
        subscription_type: None,
        settings: Some(settings),
    };
    let r = whoami_response(geo(), Some(user));
    assert_eq!(r.username.as_deref(), Some("uid"));
    assert_eq!(r.is_authenticated, Some(true));
    assert_eq!(r.subscription_type, Some(SubscriptionKind::Core));
    assert_eq!(r.settings, Some(SettingsResponse::from(settings)));
}

#[test]
fn pings_record_only_what_is_on() {
    let s = Settings { locale_override: None, mdnplus_newsletter: false, no_ads: true, ai_help_history: false };
    let a = activity_data(Some(SubscriptionKind::Plus), Some(s), PingQuery { offline: Some(false) });
    assert!(a.no_ads && !a.ai_help_history && !a.offline);
    assert!(activity_data(None, None, PingQuery { offline: Some(true) }).offline);
}

#[test]
fn settings_updates_keep_ads_for_subscribers() {
    let u = SettingUpdateRequest { locale_override: None, mdnplus_newsletter: Some(true), no_ads: Some(true), ai_help_history: Some(true) };
    let free = settings_insert(1, false, u);
    assert_eq!((free.no_ads, free.mdnplus_newsletter, free.ai_help_history), (None, None, Some(true)));
    assert_eq!(settings_insert(1, true, u).no_ads, Some(true));
}

#[test]
fn newsletter_decisions() {
    assert_eq!(subscription_source_url("https://x", true), "https://x/en-US/newsletter");
    assert_eq!(subscription_source_url("https://x", false), "https://x/en-US/settings");
    let lookup = Some(UserLookup { email: "a@b.c".into(), newsletters: vec!["other".into(), "mdnplus".into()] });
    assert!(lookup_subscribed(&lookup, "a@b.c"));
    assert!(!lookup_subscribed(&lookup, "x@y.z"));
    assert!(!lookup_subscribed(&None, "a@b.c"));
    assert_eq!(newsletter_sync(1, true, None).unwrap().mdnplus_newsletter, Some(true));
    assert!(newsletter_sync(1, false, None).is_none());
    assert!(matches!(unsubscribe_step(TokenLookup::Record(Some("t".into()))), UnsubscribeStep::Unsubscribe(t) if t == "t"));
    assert!(matches!(unsubscribe_step(TokenLookup::Record(None)), UnsubscribeStep::Failed(ApiError::JsonProcessingError)));
    assert!(matches!(unsubscribe_step(TokenLookup::NotFound), UnsubscribeStep::NotFound));
}

#[test]
fn root_changes_need_an_administrator() {
    assert!(matches!(root_change_outcome(false, None), RootOutcome::Forbidden));
    assert!(matches!(root_change_outcome(true, None), RootOutcome::Updated));
    assert!(matches!(root_change_outcome(true, Some("boom".into())), RootOutcome::BadRequest(m) if m == "unable to update user: boom"));
}

#[test]
fn locale_values_of_a_query_string() {
    assert_eq!(locale_query_values("q=a&locale=de&locale=FR"), vec!["de".to_string(), "FR".to_string()]);
    assert!(locale_query_values("q=a").is_empty());
    assert_eq!(locale_query_values("locale=pt%2Dbr"), vec!["pt-br".to_string()]);
}

#[test]
fn requests_carry_their_user() {
    assert_eq!(user_of_request(Some("u".into())).unwrap().id, "u");
    assert!(user_of_request(None).is_none());
}
