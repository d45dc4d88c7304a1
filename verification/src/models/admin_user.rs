//! Admin and contributor accounts.
use vstd::prelude::*;

verus! {

/// An account of the admin area (times in Unix seconds).
#[derive(Debug)]
pub struct AdminUser {
    pub id: u64,
    pub username: String,
    pub email: Option<String>,
    pub password_hash: String,
    pub display_name: Option<String>,
    pub role: Option<String>,
    pub is_active: i8,
    pub reset_token: Option<String>,
    pub reset_token_expires_at: Option<i64>,
    pub last_login_at: Option<i64>,
    pub created_at: i64,
}

impl AdminUser {
    /// How long a password-reset token stays valid, in minutes.
    pub fn reset_token_lifetime_minutes() -> (r: i64)
        ensures
            r == 60,
    {
        60
    }
}

} // verus!
