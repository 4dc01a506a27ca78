//! The logged-in user of a request.

use vstd::prelude::*;

verus! {

/// The marker of the step that records the logged-in user of a request.
#[derive(Debug, Clone, Copy, PartialEq, Eq, Structural)]
pub struct AddUser;

/// The logged-in user of a request.
#[derive(Debug, Clone)]
pub struct UserId {
    pub id: String,
}

/// The step that records the logged-in user of a request, around the next
/// step of the request.
#[derive(Debug, Clone)]
pub struct AddUserMiddleware<S> {
    pub service: S,
}

/// The user recorded for a request: the identity it carries, if any.
pub fn user_of_request(identity: Option<String>) -> (res: Option<UserId>)
    ensures
        match identity {
            Some(i) => res matches Some(u) && u.id == i,
            None => res is None,
        },
{
    match identity {
        Some(id) => Some(UserId { id }),
        None => None,
    }
}

} // verus!
