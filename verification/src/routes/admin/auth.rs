//! Admin sign-in, sign-out and password reset.
use vstd::prelude::*;

use argon2::password_hash::rand_core::OsRng;
use argon2::password_hash::SaltString;
use argon2::{PasswordHasher, PasswordVerifier};

use crate::error::AppError;
use crate::models::admin_user::AdminUser;
use crate::text::{eq_str, or_default, owned, starts_with_seq};

verus! {

/// The sign-in form.
pub struct LoginForm {
    pub username: String,
    pub password: String,
}

/// The query of the sign-in page.
pub struct LoginQuery {
    pub reset: Option<String>,
}

/// The forgotten-password form.
pub struct ForgotPasswordForm {
    pub email: String,
}

/// The query of the password-reset page.
pub struct ResetPasswordQuery {
    pub token: String,
}

/// The password-reset form.
pub struct ResetPasswordForm {
    pub token: String,
    pub password: String,
}

/// What a successful sign-in stores in the session.
pub struct AdminSession {
    pub admin_id: u64,
    pub role: String,
    pub display_name: String,
}

/// What argon2 answers for `password` against the stored hash `hash`: an
/// error text when the hash does not parse, else whether the password matches.
pub uninterp spec fn argon2_verify(password: Seq<char>, hash: Seq<char>) -> Result<bool, Seq<char>>;

/// argon2: `PasswordHash::new(hash)` then `Argon2::default().verify_password`;
/// a parse failure gives the error's text, any verification failure `false`.
/// The contract names argon2's answer; it states nothing of which passwords match.
#[verifier::external_body]
fn check_password(password: &str, hash: &str) -> (r: Result<bool, String>)
    ensures
        match r {
            Ok(b) => argon2_verify(password@, hash@) == Ok::<bool, Seq<char>>(b),
            Err(m) => argon2_verify(password@, hash@) == Err::<bool, Seq<char>>(m@),
        },
{
    match argon2::PasswordHash::new(hash) {
        Ok(parsed) => Ok(argon2::Argon2::default().verify_password(password.as_bytes(), &parsed).is_ok()),
        Err(e) => Err(e.to_string()),
    }
}

/// A password argon2 can hash: at most `0xFFFF_FFFF` bytes in UTF-8
/// (argon2's `MAX_PWD_LEN`).
pub open spec fn hashable(password: Seq<char>) -> bool {
    vstd::utf8::encode_utf8(password).len() <= 0xFFFF_FFFF
}

/// argon2: `Argon2::default().hash_password` with a fresh salt from the
/// operating system's random source, as a PHC string, or the error's text.
/// The hash depends on the random salt; what is stated is what argon2's
/// source and documentation show: with the default parameters and a
/// generated salt, hashing fails only for a password longer than
/// `MAX_PWD_LEN` bytes; the PHC string parses, and the default verifier
/// accepts the same password against it.
#[verifier::external_body]
pub(crate) fn hash_password(password: &str) -> (r: Result<String, String>)
    ensures
        hashable(password@) ==> r is Ok,
        match r {
            Ok(h) => argon2_verify(password@, h@) == Ok::<bool, Seq<char>>(true),
            Err(_) => true,
        },
{
    let salt = SaltString::generate(&mut OsRng);
    match argon2::Argon2::default().hash_password(password.as_bytes(), &salt) {
        Ok(h) => Ok(h.to_string()),
        Err(e) => Err(e.to_string()),
    }
}

/// A bad request with message `m`.
pub open spec fn is_bad_request(e: AppError, m: Seq<char>) -> bool {
    e matches AppError::BadRequest(x) && x@ == m
}

/// `u` signs in with `password`: the account is active and argon2 accepts
/// the password against the stored hash.
pub open spec fn signs_in(u: AdminUser, password: Seq<char>) -> bool {
    u.is_active != 0 && argon2_verify(password, u.password_hash@) == Ok::<bool, Seq<char>>(true)
}

/// Signs an admin-area user in: an unknown user or a wrong password is
/// refused with the same message; a deactivated account is refused; an
/// unparsable stored hash is an internal error. The session gets the user's
/// id, role (default `admin`) and display name (default the team's name).
pub fn login_outcome(user: &Option<AdminUser>, password: &str) -> (r: Result<AdminSession, AppError>)
    ensures
        match user {
            None => r matches Err(e) && is_bad_request(e, "Username atau password salah."@),
            Some(u) => if u.is_active == 0 {
                r matches Err(e) && is_bad_request(e, "Akun Anda telah dinonaktifkan."@)
            } else {
                match argon2_verify(password@, u.password_hash@) {
                    Err(m) => r matches Err(AppError::Internal(x)) && x@ == "Hash parse error: "@ + m,
                    Ok(false) => r matches Err(e) && is_bad_request(e, "Username atau password salah."@),
                    Ok(true) => r matches Ok(s) && s.admin_id == u.id && s.role@ == or_default(u.role, "admin"@)
                        && s.display_name@ == or_default(u.display_name, "Tim Jagad Shalawat"@),
                }
            },
        },
        r is Ok <==> (user matches Some(u) && signs_in(*u, password@)),
{
    let u = match user {
        Some(u) => u,
        None => return Err(AppError::BadRequest(owned("Username atau password salah."))),
    };
    if u.is_active == 0 {
        return Err(AppError::BadRequest(owned("Akun Anda telah dinonaktifkan.")));
    }
    match check_password(password, u.password_hash.as_str()) {
        Err(m) => {
            let mut msg = owned("Hash parse error: ");
            msg.append(m.as_str());
            Err(AppError::Internal(msg))
        },
        Ok(false) => Err(AppError::BadRequest(owned("Username atau password salah."))),
        Ok(true) => {
            let role = match &u.role {
                Some(r) => r.clone(),
                None => owned("admin"),
            };
            let display_name = match &u.display_name {
                Some(d) => d.clone(),
                None => owned("Tim Jagad Shalawat"),
            };
            Ok(AdminSession { admin_id: u.id, role, display_name })
        },
    }
}

/// A signed-in visitor of the sign-in page goes to the dashboard.
pub fn login_page_redirect(is_admin: Option<bool>) -> (r: Option<&'static str>)
    ensures
        is_admin == Some(true) ==> (r matches Some(l) && l@ == "/blog/admin/dashboard"@),
        is_admin != Some(true) ==> r is None,
{
    match is_admin {
        Some(true) => Some("/blog/admin/dashboard"),
        _ => None,
    }
}

/// The notice of the sign-in page after a successful password reset.
pub fn login_notice(query: &LoginQuery) -> (r: Option<&'static str>)
    ensures
        (query.reset matches Some(x) && x@ == "success"@) ==> (r matches Some(m) && m@ == "Password berhasil diubah. Silakan login."@),
        !(query.reset matches Some(x) && x@ == "success"@) ==> r is None,
{
    match &query.reset {
        Some(x) => {
            if eq_str(x.as_str(), "success") {
                Some("Password berhasil diubah. Silakan login.")
            } else {
                None
            }
        },
        None => None,
    }
}

/// Where sign-in, sign-out and reset send the browser.
pub fn dashboard_location() -> (r: &'static str)
    ensures
        r@ == "/blog/admin/dashboard"@,
{
    "/blog/admin/dashboard"
}

/// The password-reset link sent by e-mail.
pub fn reset_link(base_url: &str, token: &str) -> (r: String)
    ensures
        r@ == base_url@ + "/blog/admin/reset-password?token="@ + token@,
{
    let mut r = owned(base_url);
    r.append("/blog/admin/reset-password?token=");
    r.append(token);
    r
}

/// The answer to a forgotten-password request, the same whether or not the
/// address is registered (no account enumeration).
pub fn forgot_password_notice() -> (r: &'static str)
    ensures
        r@ == "Jika email terdaftar, link reset password telah dikirim."@,
{
    "Jika email terdaftar, link reset password telah dikirim."
}

/// A reset the server carries out: store `token` on account `user_id`,
/// valid for `expires_in_minutes`, and mail `link` to `to`.
pub struct ResetRequest {
    pub user_id: u64,
    pub token: String,
    pub expires_in_minutes: i64,
    pub to: String,
    pub link: String,
}

/// The answer to a forgotten-password request: the reset to carry out, if
/// any, and the notice shown.
pub struct ForgotPasswordAnswer {
    pub reset: Option<ResetRequest>,
    pub notice: &'static str,
}

/// `r` answers a forgotten-password request for `email`, which belongs to
/// the account `account` (`None` when no account has it), with the fresh
/// token `token`: a reset of that account, mailed to `email`, only when
/// there is one; always the same notice.
pub open spec fn forgot_password_outcome(
    account: Option<u64>,
    email: Seq<char>,
    token: Seq<char>,
    base_url: Seq<char>,
    r: ForgotPasswordAnswer,
) -> bool {
    &&& r.notice@ == "Jika email terdaftar, link reset password telah dikirim."@
    &&& match account {
        None => r.reset is None,
        Some(id) => r.reset matches Some(q) && q.user_id == id && q.token@ == token && q.expires_in_minutes == 60
            && q.to@ == email && q.link@ == base_url + "/blog/admin/reset-password?token="@ + token,
    }
}

/// Decides a forgotten-password request: a registered address gets a reset
/// token (valid 60 minutes) and a mail with the reset link; the notice is
/// the same either way.
pub fn forgot_password_step(account: Option<u64>, email: &str, token: &str, base_url: &str) -> (r: ForgotPasswordAnswer)
    ensures
        forgot_password_outcome(account, email@, token@, base_url@, r),
{
    let reset = match account {
        Some(id) => Some(ResetRequest {
            user_id: id,
            token: owned(token),
            expires_in_minutes: AdminUser::reset_token_lifetime_minutes(),
            to: owned(email),
            link: reset_link(base_url, token),
        }),
        None => None,
    };
    ForgotPasswordAnswer { reset, notice: forgot_password_notice() }
}

/// The notice shown once the request was handled, given `delivered`: `None`
/// when no reset was due, else whether storing the token and sending the
/// mail succeeded.
pub open spec fn forgot_password_reply_text(delivered: Option<bool>) -> Seq<char> {
    "Jika email terdaftar, link reset password telah dikirim."@
}

/// The answer to a forgotten-password request after the server carried out
/// what `forgot_password_step` asked: the same notice whether no reset was
/// due, the mail went out, or storing or sending failed (a failure is not
/// shown, so it cannot reveal that the address is registered).
pub fn forgot_password_reply(delivered: Option<bool>) -> (r: &'static str)
    ensures
        r@ == forgot_password_reply_text(delivered),
{
    forgot_password_notice()
}

/// Law: what a forgotten-password request shows does not depend on whether
/// the address is registered, nor on whether the reset mail could be sent;
/// only a registered address leads to a reset.
pub proof fn law_forgot_password_hides_registration(
    id: u64,
    e1: Seq<char>,
    e2: Seq<char>,
    t1: Seq<char>,
    t2: Seq<char>,
    base_url: Seq<char>,
    r1: ForgotPasswordAnswer,
    r2: ForgotPasswordAnswer,
    delivered: bool,
)
    requires
        forgot_password_outcome(Some(id), e1, t1, base_url, r1),
        forgot_password_outcome(None, e2, t2, base_url, r2),
    ensures
        r1.notice@ == r2.notice@,
        r1.reset is Some,
        r2.reset is None,
        forgot_password_reply_text(Some(delivered)) == forgot_password_reply_text(None),
        forgot_password_reply_text(Some(delivered)) == r2.notice@,
{
}

/// The new password hash of a reset: refused when the token matched no
/// account; an internal error when hashing fails; else a hash that the new
/// password signs in with.
pub fn reset_password_hash(token_valid: bool, password: &str) -> (r: Result<String, AppError>)
    ensures
        !token_valid ==> (r matches Err(e) && is_bad_request(e, "Token tidak valid atau sudah kedaluwarsa."@)),
        token_valid ==> (r is Ok || (r matches Err(AppError::Internal(m)) && starts_with_seq(m@, "Password hashing failed: "@))),
        token_valid && hashable(password@) ==> r is Ok,
        r matches Ok(h) ==> argon2_verify(password@, h@) == Ok::<bool, Seq<char>>(true),
{
    if !token_valid {
        return Err(AppError::BadRequest(owned("Token tidak valid atau sudah kedaluwarsa.")));
    }
    match hash_password(password) {
        Ok(h) => Ok(h),
        Err(e) => {
            let prefix = owned("Password hashing failed: ");
            let mut msg = owned("Password hashing failed: ");
            msg.append(e.as_str());
            assert(msg@.subrange(0, prefix@.len() as int) =~= prefix@);
            Err(AppError::Internal(msg))
        },
    }
}

/// Law: after a reset stores the hash it made for `password` in an active
/// account, signing in to that account with `password` succeeds.
pub proof fn law_reset_password_signs_in(password: Seq<char>, hash: String, u: AdminUser)
    requires
        argon2_verify(password, hash@) == Ok::<bool, Seq<char>>(true),
        u.password_hash == hash,
        u.is_active != 0,
    ensures
        signs_in(u, password),
{
}

/// Where the browser goes after a successful reset.
pub fn reset_success_location() -> (r: &'static str)
    ensures
        r@ == "/blog/admin/login?reset=success"@,
{
    "/blog/admin/login?reset=success"
}

} // verus!
