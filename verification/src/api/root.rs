//! The administrators' endpoints: who may use them.

use vstd::prelude::*;

use crate::api::common::SubscriptionKind;
use crate::text::{push_str, to_owned_string};

verus! {

/// A lookup of a user by address.
#[derive(Debug, Clone)]
pub struct RootQuery {
    pub email: String,
}

/// A change of the plan a user is held to.
#[derive(Debug, Clone)]
pub struct RootSetEnforcePlusQuery {
    pub fxa_uid: String,
    pub enforce_plus: Option<SubscriptionKind>,
}

/// A change of whether a user is an administrator.
#[derive(Debug, Clone)]
pub struct RootSetIsAdminQuery {
    pub fxa_uid: String,
    pub is_admin: bool,
}

/// The answer of an administrators' endpoint.
#[derive(Debug, Clone)]
pub enum RootOutcome {
    Forbidden,
    /// The change was made.
    Updated,
    /// The change failed; the message.
    BadRequest(String),
}

/// The answer to a change by an administrator: only administrators may
/// change users; a failed change reports its error.
pub fn root_change_outcome(is_admin: bool, failure: Option<String>) -> (res: RootOutcome)
    ensures
        !is_admin ==> res is Forbidden,
        is_admin && failure is None ==> res is Updated,
        is_admin && failure is Some ==> (res matches RootOutcome::BadRequest(m)
            && m@ == "unable to update user: "@ + failure->0@),
{
    if !is_admin {
        return RootOutcome::Forbidden;
    }
    match failure {
        None => RootOutcome::Updated,
        Some(e) => {
            let mut m = to_owned_string("unable to update user: ");
            push_str(&mut m, e.as_str());
            RootOutcome::BadRequest(m)
        },
    }
}

} // verus!
