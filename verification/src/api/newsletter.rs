//! The MDN Plus newsletter: where subscriptions come from, and reading the
//! newsletter service's answers.

use vstd::prelude::*;

use crate::api::error::ApiError;
use crate::api::settings::SettingsInsert;
use crate::text::{contains_string, push_str, str_eq, to_owned_string, views};

verus! {

/// The newsletter list of MDN Plus.
pub const MDN_PLUS_LIST: &'static str = "mdnplus";

/// A request to subscribe an address without an account.
#[derive(Debug, Clone)]
pub struct SubscriptionRequest {
    pub email: String,
}

/// Whether a user is subscribed.
#[derive(Debug, Clone, Copy, PartialEq, Eq, Structural)]
pub struct Subscribed {
    pub subscribed: bool,
}

/// The page a subscription is made from: the newsletter page for anonymous
/// subscriptions, the settings page for users.
pub fn subscription_source_url(document_base_url: &str, anonymous: bool) -> (res: String)
    ensures
        res@ == document_base_url@ + (if anonymous { "/en-US/newsletter"@ } else { "/en-US/settings"@ }),
{
    let mut s = to_owned_string(document_base_url);
    if anonymous {
        push_str(&mut s, "/en-US/newsletter");
    } else {
        push_str(&mut s, "/en-US/settings");
    }
    s
}

/// The newsletter service's record of an address.
#[derive(Debug, Clone)]
pub struct UserLookup {
    pub email: String,
    pub newsletters: Vec<String>,
}

/// Whether the service's record says the user gets the MDN Plus newsletter:
/// a record for the user's address that lists it. No record means no.
pub fn lookup_subscribed(lookup: &Option<UserLookup>, email: &str) -> (res: bool)
    ensures
        res == (lookup matches Some(l) && l.email@ == email@ && views(l.newsletters@).contains(MDN_PLUS_LIST@)),
{
    match lookup {
        Some(l) => str_eq(l.email.as_str(), email) && contains_string(&l.newsletters, MDN_PLUS_LIST),
        None => false,
    }
}

/// The settings write after a check of the subscription: the newsletter flag
/// is written where it disagrees with the stored one (missing reads false).
pub fn newsletter_sync(user_id: i64, subscribed: bool, stored: Option<bool>) -> (res: Option<SettingsInsert>)
    ensures
        subscribed != (match stored { Some(b) => b, None => false }) ==> res == Some(SettingsInsert {
            user_id,
            locale_override: None,
            mdnplus_newsletter: Some(subscribed),
            no_ads: None,
            ai_help_history: None,
        }),
        subscribed == (match stored { Some(b) => b, None => false }) ==> res is None,
{
    let current = match stored {
        Some(b) => b,
        None => false,
    };
    if subscribed != current {
        Some(SettingsInsert::newsletter(user_id, subscribed))
    } else {
        None
    }
}

/// The service's answer to a lookup for an unsubscription: a record with a
/// token, a record without one, or no record.
#[derive(Debug, Clone)]
pub enum TokenLookup {
    Record(Option<String>),
    NotFound,
}

/// What an unsubscription does next.
#[derive(Debug, Clone)]
pub enum UnsubscribeStep {
    /// Unsubscribe with the record's token.
    Unsubscribe(String),
    /// The address is unknown to the service.
    NotFound,
    /// The record cannot be read.
    Failed(ApiError),
}

/// The next step of an unsubscription: a record's token is used, a record
/// without one is a JSON error, and an unknown address is not found.
pub fn unsubscribe_step(lookup: TokenLookup) -> (res: UnsubscribeStep)
    ensures
        match lookup {
            TokenLookup::Record(Some(t)) => res matches UnsubscribeStep::Unsubscribe(u) && u@ == t@,
            TokenLookup::Record(None) => res matches UnsubscribeStep::Failed(ApiError::JsonProcessingError),
            TokenLookup::NotFound => res is NotFound,
        },
{
    match lookup {
        TokenLookup::Record(Some(t)) => UnsubscribeStep::Unsubscribe(t),
        TokenLookup::Record(None) => UnsubscribeStep::Failed(ApiError::JsonProcessingError),
        TokenLookup::NotFound => UnsubscribeStep::NotFound,
    }
}

} // verus!
