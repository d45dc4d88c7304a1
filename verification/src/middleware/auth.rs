//! The admin gate of the session middleware.
use vstd::prelude::*;

use crate::error::AppError;

verus! {

/// Checks that the session belongs to an authenticated admin user, given the
/// session's `is_admin` entry (`None` where absent or unreadable): `Ok` only
/// when it is `true`, `Unauthorized` otherwise.
pub fn require_admin(is_admin: Option<bool>) -> (r: Result<(), AppError>)
    ensures
        r is Ok <==> is_admin == Some(true),
        r matches Err(e) ==> e is Unauthorized,
{
    match is_admin {
        Some(true) => Ok(()),
        _ => Err(AppError::Unauthorized),
    }
}

/// Where an unauthenticated visitor of the admin area is sent.
pub fn redirect_to_login() -> (r: &'static str)
    ensures
        r@ == "/blog/admin/login"@,
{
    "/blog/admin/login"
}

} // verus!
