//! A user's settings: what is stored, what is answered, and what an update
//! writes.

use vstd::prelude::*;

use crate::api::elastic::Locale;

verus! {

/// The settings stored for a user.
#[derive(Debug, Clone, Copy, PartialEq, Eq, Structural)]
pub struct Settings {
    pub locale_override: Option<Locale>,
    pub mdnplus_newsletter: bool,
    pub no_ads: bool,
    pub ai_help_history: bool,
}

/// A request to change some settings; a field left out is not changed.
#[derive(Debug, Clone, Copy, PartialEq, Eq, Structural)]
pub struct SettingUpdateRequest {
    pub locale_override: Option<Option<Locale>>,
    pub mdnplus_newsletter: Option<bool>,
    pub no_ads: Option<bool>,
    pub ai_help_history: Option<bool>,
}

/// The settings as the API answers them.
#[derive(Debug, Clone, Copy, PartialEq, Eq, Structural)]
pub struct SettingsResponse {
    pub locale_override: Option<Option<Locale>>,
    pub mdnplus_newsletter: Option<bool>,
    pub no_ads: Option<bool>,
    pub ai_help_history: Option<bool>,
}

/// What is written to the stored settings; a field left out keeps its value.
#[derive(Debug, Clone, Copy, PartialEq, Eq, Structural)]
pub struct SettingsInsert {
    pub user_id: i64,
    pub locale_override: Option<Option<Locale>>,
    pub mdnplus_newsletter: Option<bool>,
    pub no_ads: Option<bool>,
    pub ai_help_history: Option<bool>,
}

impl SettingsResponse {
    /// Every stored setting, answered.
    pub fn from(val: Settings) -> (res: SettingsResponse)
        ensures
            res.locale_override == Some(val.locale_override),
            res.mdnplus_newsletter == Some(val.mdnplus_newsletter),
            res.no_ads == Some(val.no_ads),
            res.ai_help_history == Some(val.ai_help_history),
    {
        SettingsResponse {
            locale_override: Some(val.locale_override),
            mdnplus_newsletter: Some(val.mdnplus_newsletter),
            no_ads: Some(val.no_ads),
            ai_help_history: Some(val.ai_help_history),
        }
    }
}

impl SettingsInsert {
    /// A write of the newsletter flag alone.
    pub fn newsletter(user_id: i64, subscribed: bool) -> (res: SettingsInsert)
        ensures
            res == (SettingsInsert {
                user_id,
                locale_override: None,
                mdnplus_newsletter: Some(subscribed),
                no_ads: None,
                ai_help_history: None,
            }),
    {
        SettingsInsert {
            user_id,
            locale_override: None,
            mdnplus_newsletter: Some(subscribed),
            no_ads: None,
            ai_help_history: None,
        }
    }
}

/// What a settings update writes: the locale and the history flag as asked,
/// never the newsletter flag (it follows the newsletter service), and the ads
/// flag only for subscribers.
pub fn settings_insert(user_id: i64, is_subscriber: bool, update: SettingUpdateRequest) -> (res: SettingsInsert)
    ensures
        res.user_id == user_id,
        res.locale_override == update.locale_override,
        res.mdnplus_newsletter is None,
        res.no_ads == (if is_subscriber { update.no_ads } else { None }),
        res.ai_help_history == update.ai_help_history,
{
    SettingsInsert {
        user_id,
        locale_override: update.locale_override,
        mdnplus_newsletter: None,
        no_ads: if is_subscriber { update.no_ads } else { None },
        ai_help_history: update.ai_help_history,
    }
}

} // verus!
