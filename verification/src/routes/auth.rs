//! Visitor sign-in through Google and GitHub: where the visitor returns to,
//! the authorisation URLs, and the profile kept from the provider.
use vstd::prelude::*;

use crate::error::AppError;
use crate::text::{blank, is_blank, opt_view, owned, starts_with, starts_with_seq, decimal, u64_to_string};

verus! {

/// The query of the sign-in and sign-out routes.
pub struct AuthLoginQuery {
    pub return_to: Option<String>,
}

/// The query of an OAuth callback.
pub struct OAuthCallback {
    pub code: String,
    pub state: Option<String>,
}

/// An e-mail address of a GitHub account.
pub struct GitHubEmail {
    pub email: String,
    pub primary: bool,
}

/// What the url crate parses `s` to: `None` when it is not an absolute URL,
/// else the URL's host (if any) and path.
pub uninterp spec fn parsed_url(s: Seq<char>) -> Option<(Option<Seq<char>>, Seq<char>)>;

/// url: `Url::parse(s)`, giving the parsed URL's `host_str()` and `path()`.
/// The contract names the parse; it states nothing of what the parser accepts.
#[verifier::external_body]
pub(crate) fn url_parts(s: &str) -> (r: Option<(Option<String>, String)>)
    ensures
        match r {
            Some((h, p)) => parsed_url(s@) == Some((opt_view(h), p@)),
            None => parsed_url(s@) is None,
        },
{
    match url::Url::parse(s) {
        Ok(u) => {
            let host = match u.host_str() {
                Some(h) => Some(h.to_string()),
                None => None,
            };
            Some((host, u.path().to_string()))
        },
        Err(_) => None,
    }
}

/// The bytes that percent-encoding leaves as they are.
pub open spec fn url_safe_byte(b: u8) -> bool {
    (48 <= b <= 57) || (65 <= b <= 90) || (97 <= b <= 122) || b == 45 || b == 46 || b == 95 || b == 126
}

/// The upper-case hexadecimal digit of `n < 16`.
pub open spec fn hex_upper(n: u8) -> char {
    if n < 10 {
        ((n + 48) as u8) as char
    } else {
        ((n + 55) as u8) as char
    }
}

/// Percent-encoding of bytes: alphanumerics and `-` `.` `_` `~` stay, every
/// other byte becomes `%` and two upper-case hexadecimal digits.
pub open spec fn percent_encoded(bytes: Seq<u8>) -> Seq<char>
    decreases bytes.len(),
{
    if bytes.len() == 0 {
        seq![]
    } else {
        let b = bytes.last();
        let rest = percent_encoded(bytes.drop_last());
        if url_safe_byte(b) {
            rest.push(b as char)
        } else {
            rest.push('%').push(hex_upper(b / 16)).push(hex_upper(b % 16))
        }
    }
}

/// The percent-encoding of a string's UTF-8 bytes.
pub open spec fn url_encoded(s: Seq<char>) -> Seq<char> {
    percent_encoded(vstd::utf8::encode_utf8(s))
}

/// urlencoding: `urlencoding::encode`, which percent-encodes every byte of the
/// UTF-8 text except alphanumerics and `-`, `_`, `.`, `~`, with upper-case
/// hexadecimal digits.
#[verifier::external_body]
fn url_encode(s: &str) -> (r: String)
    ensures
        r@ == url_encoded(s@),
{
    urlencoding::encode(s).into_owned()
}

/// Where a visitor returns after signing in or out: the requested path when
/// it is inside the blog; else the referring page's path when inside the
/// blog (a referrer that is not a URL counts as a path); else the blog.
pub open spec fn return_url(raw: Option<Seq<char>>, referer: Option<Seq<char>>) -> Seq<char> {
    if raw matches Some(r) && starts_with_seq(r, "/blog"@) {
        raw.unwrap()
    } else {
        match referer {
            Some(f) => match parsed_url(f) {
                Some(u) => if starts_with_seq(u.1, "/blog"@) { u.1 } else { "/blog"@ },
                None => if starts_with_seq(f, "/blog"@) { f } else { "/blog"@ },
            },
            None => "/blog"@,
        }
    }
}

/// The view of an optional string slice.
pub open spec fn opt_str_view(o: Option<&str>) -> Option<Seq<char>> {
    match o {
        Some(s) => Some(s@),
        None => None,
    }
}

/// The return path after signing in or out.
pub fn sanitize_return_url(raw: Option<&str>, referer: Option<&str>) -> (r: String)
    ensures
        r@ == return_url(opt_str_view(raw), opt_str_view(referer)),
        starts_with_seq(r@, "/blog"@),
{
    proof {
        reveal_strlit("/blog");
    }
    if let Some(r) = raw {
        if starts_with(r, "/blog") {
            return owned(r);
        }
    }
    if let Some(f) = referer {
        match url_parts(f) {
            Some((_, path)) => {
                if starts_with(path.as_str(), "/blog") {
                    return path;
                }
            },
            None => {
                if starts_with(f, "/blog") {
                    return owned(f);
                }
            },
        }
    }
    let d = owned("/blog");
    assert(d@.subrange(0, 5) =~= d@);
    d
}

/// The Google consent URL for a client, its redirect URL and the return path.
pub fn google_auth_url(client_id: &str, redirect_url: &str, return_url: &str) -> (r: String)
    ensures
        r@ == "https://accounts.google.com/o/oauth2/v2/auth?client_id="@ + url_encoded(client_id@) + "&redirect_uri="@
            + url_encoded(redirect_url@)
            + "&response_type=code&scope=openid%20email%20profile&access_type=online&state="@
            + url_encoded(return_url@),
{
    let mut r = owned("https://accounts.google.com/o/oauth2/v2/auth?client_id=");
    let a = url_encode(client_id);
    r.append(a.as_str());
    r.append("&redirect_uri=");
    let b = url_encode(redirect_url);
    r.append(b.as_str());
    r.append("&response_type=code&scope=openid%20email%20profile&access_type=online&state=");
    let c = url_encode(return_url);
    r.append(c.as_str());
    r
}

/// The GitHub authorisation URL for a client, its redirect URL and the return path.
pub fn github_auth_url(client_id: &str, redirect_url: &str, return_url: &str) -> (r: String)
    ensures
        r@ == "https://github.com/login/oauth/authorize?client_id="@ + url_encoded(client_id@) + "&redirect_uri="@
            + url_encoded(redirect_url@) + "&scope=read:user%20user:email&state="@ + url_encoded(return_url@),
{
    let mut r = owned("https://github.com/login/oauth/authorize?client_id=");
    let a = url_encode(client_id);
    r.append(a.as_str());
    r.append("&redirect_uri=");
    let b = url_encode(redirect_url);
    r.append(b.as_str());
    r.append("&scope=read:user%20user:email&state=");
    let c = url_encode(return_url);
    r.append(c.as_str());
    r
}

/// A setting the sign-in needs; its absence is an internal error `msg`.
pub fn require_setting(v: &Option<String>, msg: &str) -> (r: Result<String, AppError>)
    ensures
        match r {
            Ok(s) => *v == Some(s),
            Err(e) => v.is_none() && (e matches AppError::Internal(m) && m@ == msg@),
        },
{
    match v {
        Some(s) => Ok(s.clone()),
        None => Err(AppError::Internal(owned(msg))),
    }
}

/// Where the visitor goes after an OAuth callback: the `state` parameter when
/// it is a non-blank blog path, else the path saved in the session when it is
/// a blog path, else the blog.
pub open spec fn callback_target(state: Option<String>, saved: Option<String>) -> Seq<char> {
    if state matches Some(s) && !is_blank(s@) && starts_with_seq(s@, "/blog"@) {
        state.unwrap()@
    } else if saved matches Some(s) && starts_with_seq(s@, "/blog"@) {
        saved.unwrap()@
    } else {
        "/blog"@
    }
}

/// The return path after an OAuth callback.
pub fn callback_return_url(state: &Option<String>, saved: &Option<String>) -> (r: String)
    ensures
        r@ == callback_target(*state, *saved),
        starts_with_seq(r@, "/blog"@),
{
    proof {
        reveal_strlit("/blog");
    }
    if let Some(s) = state {
        if !blank(s.as_str()) && starts_with(s.as_str(), "/blog") {
            return s.clone();
        }
    }
    if let Some(s) = saved {
        if starts_with(s.as_str(), "/blog") {
            return s.clone();
        }
    }
    let d = owned("/blog");
    assert(d@.subrange(0, 5) =~= d@);
    d
}

/// The first primary address of a list, or the empty text.
pub open spec fn primary_email(list: Seq<GitHubEmail>) -> Seq<char>
    decreases list.len(),
{
    if list.len() == 0 {
        Seq::empty()
    } else if list[0].primary {
        list[0].email@
    } else {
        primary_email(list.drop_first())
    }
}

/// The address list of a GitHub user is fetched only when the profile shows
/// no public address.
pub fn needs_email_list(profile_email: &Option<String>) -> (r: bool)
    ensures
        r == profile_email is None,
{
    profile_email.is_none()
}

/// The e-mail kept for a GitHub user: the profile's public address, else the
/// primary one of the address list (`None` when the list could not be read),
/// else the empty text.
pub fn github_email(profile_email: &Option<String>, listed: &Option<Vec<GitHubEmail>>) -> (r: String)
    ensures
        r@ == (match profile_email {
            Some(e) => e@,
            None => match listed {
                Some(list) => primary_email(list@),
                None => Seq::empty(),
            },
        }),
{
    match profile_email {
        Some(e) => e.clone(),
        None => match listed {
            Some(list) => {
                let mut i: usize = 0;
                assert(list@.skip(0) =~= list@);
                while i < list.len()
                    invariant
                        i <= list@.len(),
                        profile_email.is_none(),
                        listed matches Some(l) && l@ == list@,
                        primary_email(list@) == primary_email(list@.skip(i as int)),
                    decreases list.len() - i,
                {
                    proof {
                        let rest = list@.skip(i as int);
                        assert(rest[0] == list@[i as int]);
                        assert(rest.drop_first() =~= list@.skip(i + 1));
                    }
                    if list[i].primary {
                        return list[i].email.clone();
                    }
                    i = i + 1;
                }
                proof {
                    assert(list@.skip(i as int) =~= Seq::<GitHubEmail>::empty());
                }
                String::new()
            },
            None => String::new(),
        },
    }
}

/// The name shown for a GitHub user: the profile name, else the login.
pub fn github_display_name(name: &Option<String>, login: &str) -> (r: String)
    ensures
        r@ == (match name {
            Some(n) => n@,
            None => login@,
        }),
{
    match name {
        Some(n) => n.clone(),
        None => owned(login),
    }
}

/// The OAuth id kept for a GitHub user: the decimal account number.
pub fn github_oauth_id(id: u64) -> (r: String)
    ensures
        r@ == decimal(id as nat),
{
    u64_to_string(id)
}

/// Law: whatever the request carries, a visitor is only ever sent back to a
/// page of the blog (no open redirect).
pub proof fn law_returns_stay_in_blog(raw: Option<Seq<char>>, referer: Option<Seq<char>>, state: Option<String>, saved: Option<String>)
    ensures
        starts_with_seq(return_url(raw, referer), "/blog"@),
        starts_with_seq(callback_target(state, saved), "/blog"@),
{
    assert("/blog"@.subrange(0, "/blog"@.len() as int) =~= "/blog"@);
}

} // verus!
