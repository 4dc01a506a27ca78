//! The daily activity ping of logged-in users.

use vstd::prelude::*;

use crate::api::common::SubscriptionKind;
use crate::api::settings::Settings;

verus! {

/// The form of a ping.
#[derive(Debug, Clone, Copy, PartialEq, Eq, Structural)]
pub struct PingQuery {
    pub offline: Option<bool>,
}

/// What a ping records of the user's activity. A flag that is false is left
/// out of the record, so that a later ping of the same day cannot clear it.
#[derive(Debug, Clone, Copy, PartialEq, Eq, Structural)]
pub struct ActivityData {
    pub subscription_type: Option<SubscriptionKind>,
    pub ai_help_history: bool,
    pub no_ads: bool,
    pub offline: bool,
}

/// The activity recorded by a ping: the plan, the AI Help history and ad
/// settings where they are on, and whether the client is offline.
pub fn activity_data(subscription_type: Option<SubscriptionKind>, settings: Option<Settings>, form: PingQuery) -> (res: ActivityData)
    ensures
        res.subscription_type == subscription_type,
        res.ai_help_history == (settings matches Some(s) && s.ai_help_history),
        res.no_ads == (settings matches Some(s) && s.no_ads),
        res.offline == (form.offline == Some(true)),
{
    let (ai_help_history, no_ads) = match settings {
        Some(s) => (s.ai_help_history, s.no_ads),
        None => (false, false),
    };
    let offline = match form.offline {
        Some(o) => o,
        None => false,
    };
    ActivityData { subscription_type, ai_help_history, no_ads, offline }
}

} // verus!
