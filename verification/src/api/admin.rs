//! The administration endpoints' access check.

use vstd::prelude::*;

use crate::api::error::ApiError;
use crate::text::str_eq;

verus! {

/// Only requests bearing the administration token pass.
pub fn check_admin_bearer(token: &str, admin_token: &str) -> (res: Result<(), ApiError>)
    ensures
        token@ == admin_token@ ==> res is Ok,
        token@ != admin_token@ ==> res matches Err(ApiError::InvalidBearer),
{
    if str_eq(token, admin_token) {
        Ok(())
    } else {
        Err(ApiError::InvalidBearer)
    }
}

} // verus!
