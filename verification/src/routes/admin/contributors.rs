//! Contributor accounts, managed by admins.
use vstd::prelude::*;

use crate::error::AppError;
use crate::routes::admin::auth::{argon2_verify, hash_password, hashable};
use crate::text::{blank, is_blank, owned, starts_with_seq};

verus! {

/// The contributor form (`is_active` is present when the box is ticked).
pub struct ContributorForm {
    pub username: String,
    pub email: String,
    pub display_name: String,
    pub password: Option<String>,
    pub is_active: Option<String>,
}

/// A contributor account to create.
pub struct NewContributor {
    pub username: String,
    pub email: String,
    pub password_hash: String,
    pub display_name: String,
    pub role: String,
    pub is_active: i8,
}

/// The changes to a contributor account.
pub struct ContributorUpdate {
    pub username: String,
    pub email: String,
    pub display_name: String,
    pub is_active: i8,
    /// A new password hash, when a new password was given.
    pub password_hash: Option<String>,
}

/// The account is active when the box is ticked.
pub fn is_active_flag(form: &ContributorForm) -> (r: i8)
    ensures
        r == (if form.is_active is Some { 1i8 } else { 0i8 }),
{
    if form.is_active.is_some() { 1 } else { 0 }
}

/// The password of a new contributor: the form's, else the default one.
pub fn initial_password(form: &ContributorForm) -> (r: &str)
    ensures
        r@ == crate::text::or_default(form.password, "password123"@),
{
    match &form.password {
        Some(p) => p.as_str(),
        None => "password123",
    }
}

fn hashing_failed(e: String) -> (r: AppError)
    ensures
        r matches AppError::Internal(m) && starts_with_seq(m@, "Password hashing failed: "@),
{
    let prefix = owned("Password hashing failed: ");
    let mut msg = owned("Password hashing failed: ");
    msg.append(e.as_str());
    assert(msg@.subrange(0, prefix@.len() as int) =~= prefix@);
    AppError::Internal(msg)
}

/// The account of a new contributor, with its password hashed (role
/// `contributor`); an internal error when hashing fails, which happens only
/// for a password argon2 cannot take (over `0xFFFF_FFFF` bytes).
pub fn new_contributor(form: &ContributorForm) -> (r: Result<NewContributor, AppError>)
    ensures
        match r {
            Ok(c) => c.username@ == form.username@ && c.email@ == form.email@ && c.display_name@ == form.display_name@
                && c.role@ == "contributor"@ && c.is_active == (if form.is_active is Some { 1i8 } else { 0i8 })
                && argon2_verify(crate::text::or_default(form.password, "password123"@), c.password_hash@)
                    == Ok::<bool, Seq<char>>(true),
            Err(e) => e matches AppError::Internal(m) && starts_with_seq(m@, "Password hashing failed: "@),
        },
        hashable(crate::text::or_default(form.password, "password123"@)) ==> r is Ok,
{
    let password = initial_password(form);
    let password_hash = match hash_password(password) {
        Ok(h) => h,
        Err(e) => return Err(hashing_failed(e)),
    };
    Ok(NewContributor {
        username: form.username.clone(),
        email: form.email.clone(),
        password_hash,
        display_name: form.display_name.clone(),
        role: owned("contributor"),
        is_active: is_active_flag(form),
    })
}

/// The changes of a contributor edit: the password is changed (hashed) only
/// when a non-blank one is given; an internal error when hashing fails,
/// which happens only for a password argon2 cannot take.
pub fn contributor_update(form: &ContributorForm) -> (r: Result<ContributorUpdate, AppError>)
    ensures
        match r {
            Ok(c) => c.username@ == form.username@ && c.email@ == form.email@ && c.display_name@ == form.display_name@
                && c.is_active == (if form.is_active is Some { 1i8 } else { 0i8 })
                && (c.password_hash is Some <==> (form.password matches Some(p) && !is_blank(p@)))
                && (c.password_hash matches Some(h) ==> (form.password matches Some(p)
                    && argon2_verify(p@, h@) == Ok::<bool, Seq<char>>(true))),
            Err(e) => (form.password matches Some(p) && !is_blank(p@) && !hashable(p@))
                && (e matches AppError::Internal(m) && starts_with_seq(m@, "Password hashing failed: "@)),
        },
{
    let password_hash = match &form.password {
        Some(p) => {
            if blank(p.as_str()) {
                None
            } else {
                match hash_password(p.as_str()) {
                    Ok(h) => Some(h),
                    Err(e) => return Err(hashing_failed(e)),
                }
            }
        },
        None => None,
    };
    Ok(ContributorUpdate {
        username: form.username.clone(),
        email: form.email.clone(),
        display_name: form.display_name.clone(),
        is_active: is_active_flag(form),
        password_hash,
    })
}

/// The error of an id that is no contributor.
pub fn contributor_not_found() -> (r: AppError)
    ensures
        r matches AppError::NotFound(m) && m@ == "Kontributor tidak ditemukan"@,
{
    AppError::NotFound(owned("Kontributor tidak ditemukan"))
}

/// Where contributor management returns.
pub fn contributors_location() -> (r: &'static str)
    ensures
        r@ == "/blog/admin/contributors"@,
{
    "/blog/admin/contributors"
}

} // verus!
