//! The password-reset e-mail: SMTP settings and message text.
use vstd::prelude::*;

use crate::config::Config;
use crate::error::AppError;
use crate::text::owned;

verus! {

/// The SMTP account used to send mail.
pub struct SmtpSettings {
    pub username: String,
    pub password: String,
    pub server: String,
}

/// The sender of the password-reset e-mail.
pub fn reset_email_from() -> (r: &'static str)
    ensures
        r@ == "Jagad Shalawat <no-reply@jagadshalawat.org>"@,
{
    "Jagad Shalawat <no-reply@jagadshalawat.org>"
}

/// The subject of the password-reset e-mail.
pub fn reset_email_subject() -> (r: &'static str)
    ensures
        r@ == "Reset Password Anda - Jagad Shalawat"@,
{
    "Reset Password Anda - Jagad Shalawat"
}

/// The SMTP settings of the configuration; each missing one is an internal
/// error naming it (username, then password, then server).
pub fn smtp_settings(config: &Config) -> (r: Result<SmtpSettings, AppError>)
    ensures
        config.smtp_username is None ==> (r matches Err(AppError::Internal(m)) && m@ == "SMTP_USERNAME belum diatur di .env"@),
        config.smtp_username is Some && config.smtp_password is None
            ==> (r matches Err(AppError::Internal(m)) && m@ == "SMTP_PASSWORD belum diatur di .env"@),
        config.smtp_username is Some && config.smtp_password is Some && config.smtp_server is None
            ==> (r matches Err(AppError::Internal(m)) && m@ == "SMTP_SERVER belum diatur di .env"@),
        r matches Ok(s) ==> Some(s.username) == config.smtp_username && Some(s.password) == config.smtp_password
            && Some(s.server) == config.smtp_server,
{
    let username = match &config.smtp_username {
        Some(u) => u.clone(),
        None => return Err(AppError::Internal(owned("SMTP_USERNAME belum diatur di .env"))),
    };
    let password = match &config.smtp_password {
        Some(p) => p.clone(),
        None => return Err(AppError::Internal(owned("SMTP_PASSWORD belum diatur di .env"))),
    };
    let server = match &config.smtp_server {
        Some(s) => s.clone(),
        None => return Err(AppError::Internal(owned("SMTP_SERVER belum diatur di .env"))),
    };
    Ok(SmtpSettings { username, password, server })
}

/// The HTML body of the password-reset e-mail.
pub open spec fn reset_email_body(reset_link: Seq<char>) -> Seq<char> {
    "\n        <p>Halo,</p>\n        <p>Anda menerima email ini karena ada permintaan reset password untuk akun Anda.</p>\n        <p>Silakan klik link di bawah ini untuk mengatur ulang password Anda:</p>\n        <p><a href=\""@
        + reset_link
        + "\">Reset Password</a></p>\n        <p>Jika Anda tidak meminta reset password, abaikan email ini.</p>\n        <p>Terima kasih,<br>Tim Jagad Shalawat</p>\n        "@
}

/// The HTML body of the password-reset e-mail for a reset link.
pub fn reset_email_html(reset_link: &str) -> (r: String)
    ensures
        r@ == reset_email_body(reset_link@),
{
    let mut r = owned("\n        <p>Halo,</p>\n        <p>Anda menerima email ini karena ada permintaan reset password untuk akun Anda.</p>\n        <p>Silakan klik link di bawah ini untuk mengatur ulang password Anda:</p>\n        <p><a href=\"");
    r.append(reset_link);
    r.append("\">Reset Password</a></p>\n        <p>Jika Anda tidak meminta reset password, abaikan email ini.</p>\n        <p>Terima kasih,<br>Tim Jagad Shalawat</p>\n        ");
    r
}

} // verus!
