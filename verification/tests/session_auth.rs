use rumba::api::auth::{login_cookie_attributes, login_cookie_removal};
use rumba::api::admin::check_admin_bearer;
use rumba::api::auth::{callback_redirect, resolve_redirect};
use rumba::api::error::ApiError;
use rumba::api::fxa_webhook::{decode_set_token, event_actions, split_set_token, FxAEvents, FxaAction, ProfileChange, SetTokenError, DeleteUser};
use rumba::api::session_migration_middleware::{cookie_header, migrate_session_value};

#[test]
fn old_session_values_are_migrated_once() {
    let migrated = migrate_session_value("abc").unwrap();
    assert_eq!(migrated, "{\"actix_identity.user_id\":\"\\\"abc\\\"\"}");
    assert!(migrate_session_value(&migrated).is_none());
    assert_eq!(cookie_header(&vec!["a=1".into(), "b=2".into()]), "a=1;b=2");
}

#[test]
fn redirects_stay_on_the_site() {
    let base = "https://developer.mozilla.org";
    assert_eq!(resolve_redirect(base, "/en-US/plus"), "https://developer.mozilla.org/en-US/plus");
    assert_eq!(resolve_redirect(base, "https://evil.example/"), "/");
    assert_eq!(resolve_redirect(base, "data:text/plain,x"), "/");
    assert_eq!(callback_redirect(base, "s", "t", None), None);
    assert_eq!(callback_redirect(base, "s", "s", None).as_deref(), Some("/"));
    assert_eq!(callback_redirect(base, "s", "s", Some("/x".into())).as_deref(), Some("https://developer.mozilla.org/x"));
}

#[test]
fn tokens_have_three_parts() {
    assert!(split_set_token("a.b").is_none());
    let p = split_set_token("h.p.s").unwrap();
    assert_eq!((p.header.as_str(), p.payload.as_str(), p.signature.as_str()), ("h", "p", "s"));
    assert_eq!(decode_set_token("a.b").unwrap_err(), SetTokenError::WrongShape);
    assert_eq!(decode_set_token("a!.b.c").unwrap_err(), SetTokenError::Base64);
    let t = decode_set_token("eyJ9.e30.AAEC").unwrap();
    assert_eq!(t.payload_json, b"{}".to_vec());
    assert_eq!(t.signature, vec![0, 1, 2]);
    assert_eq!(t.signing_input, "eyJ9.e30");
}

#[test]
fn events_are_processed_in_order() {
    let events = FxAEvents {
        subscription_state_change: None,
        password_change: None,
        profile_change: Some(ProfileChange { email: Some("a@b.c".into()) }),
        delete_user: Some(DeleteUser {}),
    };
    let actions = event_actions(events);
    assert_eq!(actions.len(), 2);
    assert!(matches!(&actions[0], FxaAction::UpdateProfile(p) if p.email.as_deref() == Some("a@b.c")));
    assert!(matches!(actions[1], FxaAction::DeleteUser));
}

#[test]
fn admin_token() {
    assert!(check_admin_bearer("t", "t").is_ok());
    assert!(matches!(check_admin_bearer("x", "t"), Err(ApiError::InvalidBearer)));
}

#[test]
fn login_cookies() {
    let c = login_cookie_attributes(true);
    assert!(c.http_only && c.secure && c.same_site_lax && c.root_path);
    assert_eq!(c.max_age_minutes, Some(15));
    assert_eq!(login_cookie_removal().max_age_minutes, Some(0));
}
