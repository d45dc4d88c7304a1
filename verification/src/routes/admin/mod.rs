//! The admin area: access rules, and the rules of its pages.
use vstd::prelude::*;

use crate::error::AppError;
use crate::text::or_default;

pub mod auth;
pub mod blocked_words;
pub mod comments;
pub mod contributors;
pub mod dashboard;
pub mod media;
pub mod posts;

verus! {

/// The session's role (absent in sessions made before roles existed: `admin`).
pub open spec fn role_of(role: Option<String>) -> Seq<char> {
    or_default(role, "admin"@)
}

/// A session may open admin-only pages.
pub open spec fn admin_allowed(is_admin: Option<bool>, role: Option<String>) -> bool {
    is_admin == Some(true) && role_of(role) == "admin"@
}

/// A session may open the admin area.
pub open spec fn auth_allowed(is_admin: Option<bool>) -> bool {
    is_admin == Some(true)
}

/// Admin-only pages: the session must be signed in (`is_admin` true) with the
/// `admin` role; contributors are refused.
pub fn require_admin(is_admin: Option<bool>, role: &Option<String>) -> (r: Result<(), AppError>)
    ensures
        r is Ok <==> admin_allowed(is_admin, *role),
        r matches Err(e) ==> e is Unauthorized,
{
    match is_admin {
        Some(true) => {
            let ok = match role {
                Some(r) => crate::text::eq_str(r.as_str(), "admin"),
                None => true,
            };
            if ok {
                Ok(())
            } else {
                Err(AppError::Unauthorized)
            }
        },
        _ => Err(AppError::Unauthorized),
    }
}

/// Pages for every signed-in admin-area user (admins and contributors).
pub fn require_auth(is_admin: Option<bool>) -> (r: Result<(), AppError>)
    ensures
        r is Ok <==> auth_allowed(is_admin),
        r matches Err(e) ==> e is Unauthorized,
{
    match is_admin {
        Some(true) => Ok(()),
        _ => Err(AppError::Unauthorized),
    }
}

/// The role shown on admin pages.
pub fn session_role(role: &Option<String>) -> (r: String)
    ensures
        r@ == role_of(*role),
{
    match role {
        Some(r) => r.clone(),
        None => crate::text::owned("admin"),
    }
}

/// Law: whoever may open an admin-only page may open every admin-area page.
pub proof fn law_admin_implies_auth(is_admin: Option<bool>, role: Option<String>)
    requires
        admin_allowed(is_admin, role),
    ensures
        auth_allowed(is_admin),
{
}

} // verus!
