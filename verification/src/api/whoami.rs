//! Who is asking: the country a request comes from, and what is told of the
//! user.

use vstd::prelude::*;

use crate::api::common::SubscriptionKind;
use crate::api::settings::{Settings, SettingsResponse};
use crate::text::to_owned_string;

verus! {

/// The country a request comes from.
#[derive(Debug, Clone)]
pub struct GeoInfo {
    pub country: String,
    pub country_iso: String,
}

/// A request header: absent, present but not readable as text, or its text.
#[derive(Debug, Clone)]
pub enum Header {
    Absent,
    Unreadable,
    Text(String),
}

/// The text of the first present header, if it is readable.
pub open spec fn first_header_text(a: Header, b: Header) -> Option<Seq<char>> {
    let h = if a is Absent { b } else { a };
    match h {
        Header::Text(t) => Some(t@),
        _ => None,
    }
}

/// The country code of a request: the text of the first country header that
/// is present (the CDN's, then the cloud platform's), or "ZZ" where it is
/// missing or unreadable.
pub open spec fn country_iso(cdn_country: Header, platform_country: Header) -> Seq<char> {
    match first_header_text(cdn_country, platform_country) {
        Some(t) => t,
        None => "ZZ"@,
    }
}

/// The country of a request: the CDN's country name header, or the name of
/// the country code, or "Unknown".
pub open spec fn country_name(cdn_country_name: Header, name_of_code: Option<Seq<char>>) -> Seq<char> {
    match cdn_country_name {
        Header::Text(t) => t@,
        _ => match name_of_code {
            Some(n) => n,
            None => "Unknown"@,
        },
    }
}

fn header_text(h: &Header) -> (res: Option<String>)
    ensures
        res matches Some(t) ==> h matches Header::Text(u) && t@ == u@,
        res is None ==> !(h is Text),
{
    match h {
        Header::Text(t) => Some(t.clone()),
        _ => None,
    }
}

/// The country code of a request, from its country headers.
pub fn request_country_iso(cdn_country: &Header, platform_country: &Header) -> (res: String)
    ensures
        res@ == country_iso(*cdn_country, *platform_country),
{
    let h = match cdn_country {
        Header::Absent => platform_country,
        _ => cdn_country,
    };
    match header_text(h) {
        Some(t) => t,
        None => to_owned_string("ZZ"),
    }
}

/// The country of a request: `name_of_code` is the name of its country code,
/// where the code is known.
pub fn geo_info(cdn_country: &Header, platform_country: &Header, cdn_country_name: &Header, name_of_code: Option<String>) -> (res: GeoInfo)
    ensures
        res.country_iso@ == country_iso(*cdn_country, *platform_country),
        res.country@ == country_name(*cdn_country_name, match name_of_code { Some(n) => Some(n@), None => None }),
{
    let country_iso = request_country_iso(cdn_country, platform_country);
    let country = match header_text(cdn_country_name) {
        Some(t) => t,
        None => match name_of_code {
            Some(n) => n,
            None => to_owned_string("Unknown"),
        },
    };
    GeoInfo { country, country_iso }
}

/// What is known of a logged-in user.
#[derive(Debug, Clone)]
pub struct UserInfo {
    pub fxa_uid: String,
    pub email: String,
    pub avatar_url: Option<String>,
    pub is_subscriber: bool,
    pub subscription_type: Option<SubscriptionKind>,
    pub settings: Option<Settings>,
}

/// The answer to "who am I".
#[derive(Debug, Clone)]
pub struct WhoamiResponse {
    pub geo: Option<GeoInfo>,
    pub username: Option<String>,
    pub is_authenticated: Option<bool>,
    pub email: Option<String>,
    pub avatar_url: Option<String>,
    pub is_subscriber: Option<bool>,
    pub subscription_type: Option<SubscriptionKind>,
    pub settings: Option<SettingsResponse>,
}

/// The answer to "who am I": the country always; for a logged-in user also
/// the account (with the core plan where no subscription is recorded) and the
/// settings.
pub fn whoami_response(geo: GeoInfo, user: Option<UserInfo>) -> (res: WhoamiResponse)
    ensures
        res.geo == Some(geo),
        match user {
            None => {
                &&& res.username is None
                &&& res.is_authenticated is None
                &&& res.email is None
                &&& res.avatar_url is None
                &&& res.is_subscriber is None
                &&& res.subscription_type is None
                &&& res.settings is None
            },
            Some(u) => {
                &&& res.username == Some(u.fxa_uid)
                &&& res.is_authenticated == Some(true)
                &&& res.email == Some(u.email)
                &&& res.avatar_url == u.avatar_url
                &&& res.is_subscriber == Some(u.is_subscriber)
                &&& res.subscription_type == Some(match u.subscription_type {
                    Some(s) => s,
                    None => SubscriptionKind::Core,
                })
                &&& res.settings == (match u.settings {
                    Some(s) => Some(SettingsResponse {
                        locale_override: Some(s.locale_override),
                        mdnplus_newsletter: Some(s.mdnplus_newsletter),
                        no_ads: Some(s.no_ads),
                        ai_help_history: Some(s.ai_help_history),
                    }),
                    None => None,
                })
            },
        },
{
    match user {
        None => WhoamiResponse {
            geo: Some(geo),
            username: None,
            is_authenticated: None,
            email: None,
            avatar_url: None,
            is_subscriber: None,
            subscription_type: None,
            settings: None,
        },
        Some(u) => WhoamiResponse {
            geo: Some(geo),
            username: Some(u.fxa_uid),
            is_authenticated: Some(true),
            email: Some(u.email),
            avatar_url: u.avatar_url,
            is_subscriber: Some(u.is_subscriber),
            subscription_type: Some(match u.subscription_type {
                Some(s) => s,
                None => SubscriptionKind::Core,
            }),
            settings: match u.settings {
                Some(s) => Some(SettingsResponse::from(s)),
                None => None,
            },
        },
    }
}

} // verus!
