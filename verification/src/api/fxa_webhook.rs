//! Events from Firefox Accounts: reading the security event token, and the
//! order in which its events are processed.

use base64::engine::general_purpose::URL_SAFE_NO_PAD;
use base64::Engine;
use vstd::prelude::*;

use crate::api::common::Timestamp;
use crate::text::{push_str, split_on, split_str, to_owned_string, views};

verus! {

/// A change of a user's subscriptions.
#[derive(Debug, Clone)]
pub struct SubscriptionStateChange {
    pub capabilities: Vec<String>,
    pub is_active: bool,
    pub change_time: Timestamp,
}

/// A change of a user's password.
#[derive(Debug, Clone, Copy, PartialEq, Eq, Structural)]
pub struct PasswordChange {
    pub change_time: Timestamp,
}

/// A change of a user's profile.
#[derive(Debug, Clone)]
pub struct ProfileChange {
    pub email: Option<String>,
}

/// The deletion of a user.
#[derive(Debug, Clone, Copy, PartialEq, Eq, Structural)]
pub struct DeleteUser {}

/// The events of a token.
#[derive(Debug, Clone)]
pub struct FxAEvents {
    pub subscription_state_change: Option<SubscriptionStateChange>,
    pub password_change: Option<PasswordChange>,
    pub profile_change: Option<ProfileChange>,
    pub delete_user: Option<DeleteUser>,
}

/// What is done for an event.
#[derive(Debug, Clone)]
pub enum FxaAction {
    UpdateProfile(ProfileChange),
    UpdateSubscription(SubscriptionStateChange),
    DeleteUser,
    /// Password changes are only noted.
    SkipPasswordChange,
}

/// The kind of an action.
pub open spec fn action_kind(a: FxaAction) -> int {
    match a {
        FxaAction::UpdateProfile(_) => 0,
        FxaAction::UpdateSubscription(_) => 1,
        FxaAction::DeleteUser => 2,
        FxaAction::SkipPasswordChange => 3,
    }
}

/// The kinds of the actions for a token's events, in order: the profile
/// change, the subscription change, the deletion, the password change.
pub open spec fn event_kinds(e: FxAEvents) -> Seq<int> {
    (if e.profile_change is Some { seq![0int] } else { Seq::empty() })
        + (if e.subscription_state_change is Some { seq![1int] } else { Seq::empty() })
        + (if e.delete_user is Some { seq![2int] } else { Seq::empty() })
        + (if e.password_change is Some { seq![3int] } else { Seq::empty() })
}

/// The actions for a token's events, in the order in which they are done;
/// each change is handed on as it came.
pub fn event_actions(events: FxAEvents) -> (res: Vec<FxaAction>)
    ensures
        res@.map_values(|a: FxaAction| action_kind(a)) == event_kinds(events),
        forall|k: int| 0 <= k < res@.len() ==> match #[trigger] res@[k] {
            FxaAction::UpdateProfile(p) => events.profile_change == Some(p),
            FxaAction::UpdateSubscription(s) => events.subscription_state_change == Some(s),
            _ => true,
        },
{
    let ghost e = events;
    let mut res: Vec<FxaAction> = Vec::new();
    if let Some(p) = events.profile_change {
        res.push(FxaAction::UpdateProfile(p));
    }
    let ghost k1 = res@.map_values(|a: FxaAction| action_kind(a));
    assert(k1 =~= (if e.profile_change is Some { seq![0int] } else { Seq::empty() }));
    if let Some(s) = events.subscription_state_change {
        res.push(FxaAction::UpdateSubscription(s));
    }
    let ghost k2 = res@.map_values(|a: FxaAction| action_kind(a));
    assert(k2 =~= k1 + (if e.subscription_state_change is Some { seq![1int] } else { Seq::empty() }));
    if events.delete_user.is_some() {
        res.push(FxaAction::DeleteUser);
    }
    let ghost k3 = res@.map_values(|a: FxaAction| action_kind(a));
    assert(k3 =~= k2 + (if e.delete_user is Some { seq![2int] } else { Seq::empty() }));
    if events.password_change.is_some() {
        res.push(FxaAction::SkipPasswordChange);
    }
    assert(res@.map_values(|a: FxaAction| action_kind(a)) =~= k3 + (if e.password_change is Some { seq![3int] } else { Seq::empty() }));
    res
}

/// The three parts of a token: its header, its payload and its signature.
#[derive(Debug, Clone)]
pub struct SetTokenParts {
    pub header: String,
    pub payload: String,
    pub signature: String,
}

/// Cuts a token at its dots; only a token of exactly three parts is one.
pub fn split_set_token(raw: &str) -> (res: Option<SetTokenParts>)
    ensures
        split_on(raw@, "."@).len() != 3 ==> res is None,
        split_on(raw@, "."@).len() == 3 ==> (res matches Some(p)
            && p.header@ == split_on(raw@, "."@)[0]
            && p.payload@ == split_on(raw@, "."@)[1]
            && p.signature@ == split_on(raw@, "."@)[2]),
{
    proof { reveal_strlit("."); }
    let parts = split_str(raw, ".");
    proof {
        assert(views(parts@).len() == parts@.len());
    }
    if parts.len() != 3 {
        return None;
    }
    proof {
        assert(views(parts@)[0] == parts@[0]@);
        assert(views(parts@)[1] == parts@[1]@);
        assert(views(parts@)[2] == parts@[2]@);
    }
    Some(SetTokenParts {
        header: parts[0].clone(),
        payload: parts[1].clone(),
        signature: parts[2].clone(),
    })
}

/// The text a token's signature is computed over: the header, a dot, and
/// the payload.
pub fn signing_input(parts: &SetTokenParts) -> (res: String)
    ensures
        res@ == parts.header@ + "."@ + parts.payload@,
{
    let mut s = to_owned_string(parts.header.as_str());
    push_str(&mut s, ".");
    push_str(&mut s, parts.payload.as_str());
    s
}

/// The bytes of an unpadded URL-safe base64 text; nothing where it is not one.
pub uninterp spec fn base64_url_bytes(text: Seq<char>) -> Option<Seq<u8>>;

/// Decodes unpadded URL-safe base64 (`Engine::decode` of `URL_SAFE_NO_PAD`);
/// the result is named by `base64_url_bytes`.
#[verifier::external_body]
fn base64_url_decode(text: &str) -> (res: Option<Vec<u8>>)
    ensures
        match res {
            Some(d) => base64_url_bytes(text@) == Some(d@),
            None => base64_url_bytes(text@) is None,
        },
{
    URL_SAFE_NO_PAD.decode(text).ok()
}

/// A token read as bytes: its header and payload (both JSON), its
/// signature, and the text the signature is computed over.
#[derive(Debug, Clone)]
pub struct DecodedSetToken {
    pub header_json: Vec<u8>,
    pub payload_json: Vec<u8>,
    pub signature: Vec<u8>,
    pub signing_input: String,
}

/// Why a token cannot be read.
#[derive(Debug, Clone, Copy, PartialEq, Eq, Structural)]
pub enum SetTokenError {
    /// The token does not have three parts.
    WrongShape,
    /// A part is not base64.
    Base64,
}

/// Reads a token: three dot-separated parts, each in unpadded URL-safe
/// base64.
pub fn decode_set_token(raw: &str) -> (res: Result<DecodedSetToken, SetTokenError>)
    ensures
        ({
            let parts = split_on(raw@, "."@);
            &&& parts.len() != 3 ==> res == Err::<DecodedSetToken, SetTokenError>(SetTokenError::WrongShape)
            &&& parts.len() == 3 ==> match res {
                Ok(t) => base64_url_bytes(parts[0]) == Some(t.header_json@)
                    && base64_url_bytes(parts[1]) == Some(t.payload_json@)
                    && base64_url_bytes(parts[2]) == Some(t.signature@)
                    && t.signing_input@ == parts[0] + "."@ + parts[1],
                Err(e) => e == SetTokenError::Base64 && (base64_url_bytes(parts[0]) is None
                    || base64_url_bytes(parts[1]) is None || base64_url_bytes(parts[2]) is None),
            }
        }),
{
    let parts = match split_set_token(raw) {
        Some(p) => p,
        None => return Err(SetTokenError::WrongShape),
    };
    let header_json = match base64_url_decode(parts.header.as_str()) {
        Some(h) => h,
        None => return Err(SetTokenError::Base64),
    };
    let payload_json = match base64_url_decode(parts.payload.as_str()) {
        Some(p) => p,
        None => return Err(SetTokenError::Base64),
    };
    let signature = match base64_url_decode(parts.signature.as_str()) {
        Some(s) => s,
        None => return Err(SetTokenError::Base64),
    };
    let input = signing_input(&parts);
    Ok(DecodedSetToken { header_json, payload_json, signature, signing_input: input })
}

} // verus!
