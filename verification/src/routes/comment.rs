//! The comment submission rules: honeypot, CAPTCHA requirement, author
//! identity, content limits, content filtering, moderation status and the
//! record that is stored.
use vstd::prelude::*;

use md5::Digest;

use crate::error::AppError;
use crate::models::comment::CreateComment;
use crate::services::content_filter::{blocked, flagged, normalize_seq, ContentFilter, FilterResult};
use crate::services::rate_limiter::{allowed_requests, counter_after, law_requests_in_window};
use crate::services::markdown::{ammonia_clean, comment_tags, sanitize_html};
use crate::text::{blank, clone_opt, eq_str, has_substring, is_blank, lowercase, opt_view, owned, to_lowercase, to_chars, trim, trim_seq};

verus! {

/// The comment form.
pub struct CommentForm {
    pub author_name: Option<String>,
    pub author_email: Option<String>,
    pub content: String,
    pub parent_id: Option<u64>,
    /// Honeypot field: must be empty for legitimate submissions.
    pub website: Option<String>,
    /// Cloudflare Turnstile token.
    pub cf_turnstile_response: Option<String>,
}

/// A commenter signed in through OAuth, as the session holds them (present
/// when the session has both a user name and a provider).
pub struct SessionCommenter {
    pub name: String,
    pub provider: String,
    pub email: Option<String>,
    pub avatar: Option<String>,
    pub oauth_id: Option<String>,
}

/// The moderation status a new comment is stored with.
#[derive(Debug)]
pub enum CommentStatus {
    Approved,
    Pending,
}

/// What the CAPTCHA step asks for.
pub enum CaptchaCheck {
    /// No secret is configured (empty or `dummy`): no check.
    NotRequired,
    /// The token must be verified with Turnstile.
    Verify,
    /// A check is required but the form carries no token.
    Missing,
}

/// A comment ready to be stored.
pub struct PreparedComment {
    pub data: CreateComment,
    pub status: CommentStatus,
}

/// What md5 computes for `bytes` (the 16-byte MD5 digest).
pub uninterp spec fn md5_digest(bytes: Seq<u8>) -> Seq<u8>;

/// The lower-case hexadecimal digit of `n < 16`.
pub open spec fn hex_digit(n: u8) -> char {
    if n < 10 {
        ((n + 48) as u8) as char
    } else {
        ((n + 87) as u8) as char
    }
}

/// Lower-case hexadecimal encoding, two digits per byte.
pub open spec fn hex_lower(bytes: Seq<u8>) -> Seq<char>
    decreases bytes.len(),
{
    if bytes.len() == 0 {
        seq![]
    } else {
        hex_lower(bytes.drop_last()).push(hex_digit(bytes.last() / 16)).push(hex_digit(bytes.last() % 16))
    }
}

/// md-5: `Md5::digest` of `bytes`; an MD5 digest is 16 bytes long.
#[verifier::external_body]
fn md5_of(bytes: &[u8]) -> (r: Vec<u8>)
    ensures
        r@ == md5_digest(bytes@),
        r@.len() == 16,
{
    md5::Md5::digest(bytes).to_vec()
}

/// hex: `hex::encode`, which writes each byte as two lower-case hexadecimal digits.
#[verifier::external_body]
fn hex_encode(bytes: &Vec<u8>) -> (r: String)
    ensures
        r@ == hex_lower(bytes@),
{
    hex::encode(bytes)
}

/// The Gravatar URL of an e-mail address (trimmed and lower-cased, MD5-hashed).
pub open spec fn gravatar(email: Seq<char>) -> Seq<char> {
    "https://www.gravatar.com/avatar/"@ + hex_lower(md5_digest(vstd::utf8::encode_utf8(lowercase(trim_seq(email)))))
        + "?d=mp&s=80"@
}

/// The Gravatar URL of an e-mail address.
pub fn gravatar_url(email: &str) -> (r: String)
    ensures
        r@ == gravatar(email@),
{
    let trimmed = trim(email);
    let lower = to_lowercase(trimmed.as_str());
    let digest = md5_of(lower.as_str().as_bytes());
    let hash = hex_encode(&digest);
    let mut r = owned("https://www.gravatar.com/avatar/");
    r.append(hash.as_str());
    r.append("?d=mp&s=80");
    r
}

/// Comments allowed per IP address and window.
pub const COMMENT_RATE_LIMIT: u32 = 3;

/// The rate-limit window of comments, in seconds (10 minutes).
pub const COMMENT_RATE_WINDOW_SECS: u64 = 600;

/// A request header's value, or `unknown` when absent (client address, user agent).
pub fn or_unknown(v: Option<&str>) -> (r: String)
    ensures
        r@ == (match v {
            Some(s) => s@,
            None => "unknown"@,
        }),
{
    match v {
        Some(s) => owned(s),
        None => owned("unknown"),
    }
}

/// The honeypot field was filled in: the submission comes from a bot and is
/// silently dropped.
pub fn honeypot_triggered(form: &CommentForm) -> (r: bool)
    ensures
        r <==> (form.website matches Some(w) && w@.len() > 0),
{
    match &form.website {
        Some(w) => !w.as_str().is_empty(),
        None => false,
    }
}

/// The CAPTCHA step for a configured Turnstile secret and the form's token.
pub fn captcha_check(secret: &str, token: &Option<String>) -> (r: CaptchaCheck)
    ensures
        (secret@.len() == 0 || secret@ == "dummy"@) ==> r is NotRequired,
        !(secret@.len() == 0 || secret@ == "dummy"@) ==> (if token is Some { r is Verify } else { r is Missing }),
{
    if !secret.is_empty() && !eq_str(secret, "dummy") {
        if token.is_some() {
            CaptchaCheck::Verify
        } else {
            CaptchaCheck::Missing
        }
    } else {
        CaptchaCheck::NotRequired
    }
}

/// The error for a CAPTCHA step that fails: no token, or a token Turnstile
/// rejected (`verified` is Turnstile's answer for a checked token).
pub fn captcha_error(check: &CaptchaCheck, verified: bool) -> (r: Option<AppError>)
    ensures
        check is NotRequired ==> r is None,
        check is Missing ==> (r matches Some(AppError::BadRequest(m)) && m@ == "CAPTCHA diperlukan."@),
        check is Verify ==> (if verified { r is None } else {
            r matches Some(AppError::BadRequest(m)) && m@ == "Verifikasi CAPTCHA gagal. Silakan coba lagi."@
        }),
{
    match check {
        CaptchaCheck::NotRequired => None,
        CaptchaCheck::Missing => Some(AppError::BadRequest(owned("CAPTCHA diperlukan."))),
        CaptchaCheck::Verify => {
            if verified {
                None
            } else {
                Some(AppError::BadRequest(owned("Verifikasi CAPTCHA gagal. Silakan coba lagi.")))
            }
        },
    }
}

/// An anonymous commenter gave a name that is not blank.
pub open spec fn anonymous_name_given(form: CommentForm) -> bool {
    form.author_name matches Some(n) && !is_blank(n@)
}

/// The author name of the comment.
pub open spec fn author_name_of(form: CommentForm, session: Option<SessionCommenter>) -> Seq<char> {
    match session {
        Some(s) => s.name@,
        None => form.author_name.unwrap()@,
    }
}

/// The stored text of a comment: the form's content, trimmed.
pub open spec fn comment_text(form: CommentForm) -> Seq<char> {
    trim_seq(form.content@)
}

/// The anonymous commenter's e-mail, when given and not blank.
pub open spec fn anonymous_email(form: CommentForm) -> Option<Seq<char>> {
    match form.author_email {
        Some(e) => if is_blank(e@) { None } else { Some(e@) },
        None => None,
    }
}

/// The record stored for a valid comment.
pub open spec fn stored_as(
    d: CreateComment,
    form: CommentForm,
    session: Option<SessionCommenter>,
    post_id: u64,
    ip: Seq<char>,
    user_agent: Seq<char>,
) -> bool {
    &&& d.post_id == post_id
    &&& d.parent_id == form.parent_id
    &&& d.author_name@ == author_name_of(form, session)
    &&& d.content@ == ammonia_clean(comment_text(form), comment_tags(), Some("nofollow"@))
    &&& opt_view(d.ip_address) == Some(ip)
    &&& opt_view(d.user_agent) == Some(user_agent)
    &&& match session {
        Some(s) => {
            &&& opt_view(d.author_email) == opt_view(s.email)
            &&& opt_view(d.author_avatar_url) == opt_view(s.avatar)
            &&& opt_view(d.oauth_provider) == Some(s.provider@)
            &&& opt_view(d.oauth_id) == opt_view(s.oauth_id)
        },
        None => {
            &&& opt_view(d.author_email) == anonymous_email(form)
            &&& opt_view(d.author_avatar_url) == (match anonymous_email(form) {
                Some(e) => Some(gravatar(e)),
                None => None,
            })
            &&& d.oauth_provider is None
            &&& d.oauth_id is None
        },
    }
}

/// A bad request with message `m`.
pub open spec fn bad_request(r: Result<PreparedComment, AppError>, m: Seq<char>) -> bool {
    r matches Err(AppError::BadRequest(x)) && x@ == m
}

/// What `prepare_comment` answers for a submission.
pub open spec fn comment_outcome(
    form: CommentForm,
    session: Option<SessionCommenter>,
    post_id: u64,
    words: Seq<crate::services::content_filter::BlockedWord>,
    ip: Seq<char>,
    user_agent: Seq<char>,
    r: Result<PreparedComment, AppError>,
) -> bool {
    let author_ok = session is Some || anonymous_name_given(form);
    let text = comment_text(form);
    let content_ok = text.len() > 0 && text.len() <= 5000;
    let name = author_name_of(form, session);
    &&& !author_ok ==> bad_request(r, "Nama wajib diisi."@)
    &&& author_ok && text.len() == 0 ==> bad_request(r, "Komentar tidak boleh kosong."@)
    &&& author_ok && text.len() > 5000
        ==> bad_request(r, "Komentar terlalu panjang (maks 5000 karakter)."@)
    &&& author_ok && content_ok && blocked(words, text) ==> bad_request(r, "Komentar mengandung kata yang diblokir."@)
    &&& author_ok && content_ok && !blocked(words, text) && blocked(words, name)
        ==> bad_request(r, "Nama mengandung kata yang diblokir."@)
    &&& author_ok && content_ok && !blocked(words, text) && !blocked(words, name) ==> (r matches Ok(p)
        && stored_as(p.data, form, session, post_id, ip, user_agent) && (p.status is Pending <==> flagged(text)
        || flagged(name)))
}

/// Prepares a submitted comment for storage, or says why it is refused.
/// The author is the OAuth session's user, else the form's (non-blank) name;
/// the content is trimmed and must be non-empty and at most 5000 characters;
/// a blocked word in the content, then in the name, refuses the comment;
/// more than two links in either holds it for review (`Pending`), otherwise
/// it is `Approved`. The stored content is sanitised HTML.
pub fn prepare_comment(
    form: &CommentForm,
    session: &Option<SessionCommenter>,
    post_id: u64,
    filter: &ContentFilter,
    ip: &str,
    user_agent: &str,
) -> (r: Result<PreparedComment, AppError>)
    ensures
        comment_outcome(*form, *session, post_id, filter.words(), ip@, user_agent@, r),
{
    // Author identity.
    let (author_name, author_email, avatar_url, oauth_provider, oauth_id) = match session {
        Some(s) => (
            s.name.clone(),
            clone_opt(&s.email),
            clone_opt(&s.avatar),
            Some(s.provider.clone()),
            clone_opt(&s.oauth_id),
        ),
        None => {
            let name = match &form.author_name {
                Some(n) => {
                    if blank(n.as_str()) {
                        return Err(AppError::BadRequest(owned("Nama wajib diisi.")));
                    }
                    n.clone()
                },
                None => {
                    return Err(AppError::BadRequest(owned("Nama wajib diisi.")));
                },
            };
            let email = match &form.author_email {
                Some(e) => if blank(e.as_str()) { None } else { Some(e.clone()) },
                None => None,
            };
            let avatar = match &email {
                Some(e) => Some(gravatar_url(e.as_str())),
                None => None,
            };
            (name, email, avatar, None, None)
        },
    };
    // Content limits.
    let content = trim(form.content.as_str());
    if content.as_str().is_empty() {
        return Err(AppError::BadRequest(owned("Komentar tidak boleh kosong.")));
    }
    if to_chars(content.as_str()).len() > 5000 {
        return Err(AppError::BadRequest(owned("Komentar terlalu panjang (maks 5000 karakter).")));
    }
    // Filtering.
    let filter_result = filter.check(content.as_str());
    let name_filter = filter.check(author_name.as_str());
    let status = match (&filter_result, &name_filter) {
        (FilterResult::Blocked { .. }, _) => {
            return Err(AppError::BadRequest(owned("Komentar mengandung kata yang diblokir.")));
        },
        (_, FilterResult::Blocked { .. }) => {
            return Err(AppError::BadRequest(owned("Nama mengandung kata yang diblokir.")));
        },
        (FilterResult::Suspicious { .. }, _) | (_, FilterResult::Suspicious { .. }) => CommentStatus::Pending,
        (FilterResult::Clean, FilterResult::Clean) => CommentStatus::Approved,
    };
    let sanitized_content = sanitize_html(content.as_str());
    let data = CreateComment {
        post_id,
        parent_id: form.parent_id,
        author_name,
        author_email,
        content: sanitized_content,
        oauth_provider,
        oauth_id,
        author_avatar_url: avatar_url,
        ip_address: Some(owned(ip)),
        user_agent: Some(owned(user_agent)),
    };
    Ok(PreparedComment { data, status })
}

impl CommentStatus {
    /// The status as it is stored.
    pub fn as_str(&self) -> (r: &'static str)
        ensures
            self is Approved ==> r@ == "approved"@,
            self is Pending ==> r@ == "pending"@,
    {
        match self {
            CommentStatus::Approved => "approved",
            CommentStatus::Pending => "pending",
        }
    }
}

/// Where the visitor is sent after submitting: the post's comment section.
pub fn redirect_to_post(slug: &str) -> (r: String)
    ensures
        r@ == "/blog/"@ + slug@ + "#komentar"@,
{
    let mut r = owned("/blog/");
    r.append(slug);
    r.append("#komentar");
    r
}

/// The post a comment is submitted to.
pub struct PostRef {
    pub id: u64,
    pub slug: String,
    pub slug_en: Option<String>,
}

/// What the server reports back to a submission after doing its work.
pub enum SubmitEvent {
    /// The submission begins.
    Start,
    /// Turnstile's answer for the token.
    CaptchaVerified(bool),
    /// The client's request counter after counting this request.
    RequestCounted(u32),
    /// The published post of the slug, if any.
    PostLookedUp(Option<PostRef>),
    /// The comment was stored.
    Stored,
    /// The cache operations were done.
    CacheCleared,
}

/// What the server does next for a submission.
pub enum SubmitAction {
    /// Verify the Turnstile token with the secret.
    VerifyCaptcha { token: String, secret: String },
    /// Count this request under `key` (expiring after the window) and report the count.
    CountRequest { key: String, window_secs: u64 },
    /// Look the published post of `slug` up.
    FindPost { slug: String },
    /// Store the comment with the status.
    Store { data: CreateComment, status: CommentStatus },
    /// Run the cache operations.
    Invalidate { ops: Vec<crate::services::cache::CacheOp> },
    /// Answer with a redirect (303) to `location`.
    Redirect { location: String },
    /// Answer with the error.
    Fail(AppError),
}

/// Where a submission stands.
pub enum SubmitStage {
    Begin,
    Captcha,
    RateLimit,
    Lookup,
    Storing { approved: bool, post: PostRef },
    Clearing,
    Finished,
}

/// A comment submission in progress.
pub struct CommentSubmission {
    pub stage: SubmitStage,
    pub slug: String,
    pub form: CommentForm,
    pub session: Option<SessionCommenter>,
    pub ip: String,
    pub user_agent: String,
    pub turnstile_secret: String,
}

/// The event the server owes a submission in `stage`.
pub open spec fn expects(stage: SubmitStage, event: SubmitEvent) -> bool {
    match stage {
        SubmitStage::Begin => event is Start,
        SubmitStage::Captcha => event is CaptchaVerified,
        SubmitStage::RateLimit => event is RequestCounted,
        SubmitStage::Lookup => event is PostLookedUp,
        SubmitStage::Storing { .. } => event is Stored,
        SubmitStage::Clearing => event is CacheCleared,
        SubmitStage::Finished => false,
    }
}

/// `a` redirects to the comment section of the post `slug`.
pub open spec fn redirects_to_post(a: SubmitAction, slug: Seq<char>) -> bool {
    a matches SubmitAction::Redirect { location } && location@ == "/blog/"@ + slug + "#komentar"@
}

/// `a` asks to count the request of `ip` in the comment window.
pub open spec fn counts_request(a: SubmitAction, ip: Seq<char>) -> bool {
    a matches SubmitAction::CountRequest { key, window_secs } && key@ == "blog:rate:"@ + ip && window_secs == 600
}

/// One step of a submission: from `s`, on `event`, to `f` doing `a`, for
/// the blocked words `words`.
pub open spec fn step_outcome(
    s: CommentSubmission,
    f: CommentSubmission,
    words: Seq<crate::services::content_filter::BlockedWord>,
    event: SubmitEvent,
    a: SubmitAction,
) -> bool {
    let secret = s.turnstile_secret@;
    let required = !(secret.len() == 0 || secret == "dummy"@);
    match s.stage {
        SubmitStage::Begin => if s.form.website matches Some(w) && w@.len() > 0 {
            f.stage is Finished && redirects_to_post(a, s.slug@)
        } else if required && s.form.cf_turnstile_response is None {
            f.stage is Finished && (a matches SubmitAction::Fail(AppError::BadRequest(m)) && m@ == "CAPTCHA diperlukan."@)
        } else if required {
            f.stage is Captcha && (a matches SubmitAction::VerifyCaptcha { token, secret: k }
                && Some(token) == s.form.cf_turnstile_response && k@ == secret)
        } else {
            f.stage is RateLimit && counts_request(a, s.ip@)
        },
        SubmitStage::Captcha => if event == SubmitEvent::CaptchaVerified(true) {
            f.stage is RateLimit && counts_request(a, s.ip@)
        } else {
            f.stage is Finished && (a matches SubmitAction::Fail(AppError::BadRequest(m))
                && m@ == "Verifikasi CAPTCHA gagal. Silakan coba lagi."@)
        },
        SubmitStage::RateLimit => if event matches SubmitEvent::RequestCounted(c) && c <= 3 {
            f.stage is Lookup && (a matches SubmitAction::FindPost { slug } && slug@ == s.slug@)
        } else {
            f.stage is Finished && (a matches SubmitAction::Fail(e) && e is RateLimited)
        },
        SubmitStage::Lookup => match event {
            SubmitEvent::PostLookedUp(Some(post)) => match a {
                SubmitAction::Store { data, status } => {
                    &&& comment_outcome(s.form, s.session, post.id, words, s.ip@, s.user_agent@,
                        Ok(PreparedComment { data, status }))
                    &&& f.stage matches SubmitStage::Storing { approved, post: p }
                    &&& approved == (status is Approved)
                    &&& p == post
                },
                SubmitAction::Fail(e) => {
                    &&& f.stage is Finished
                    &&& comment_outcome(s.form, s.session, post.id, words, s.ip@, s.user_agent@,
                        Err::<PreparedComment, AppError>(e))
                },
                _ => false,
            },
            _ => f.stage is Finished && (a matches SubmitAction::Fail(AppError::NotFound(m))
                && m@ == "Artikel tidak ditemukan"@),
        },
        SubmitStage::Storing { approved, post } => if approved {
            f.stage is Clearing && (a matches SubmitAction::Invalidate { ops } && ops@.len() > 1
                && crate::services::cache::deletes(ops@[0], "blog:comments:"@ + crate::text::decimal(post.id as nat))
                && crate::services::cache::post_invalidation(post.slug@, opt_view(post.slug_en), ops@.skip(1)))
        } else {
            f.stage is Finished && redirects_to_post(a, s.slug@)
        },
        SubmitStage::Clearing => f.stage is Finished && redirects_to_post(a, s.slug@),
        SubmitStage::Finished => false,
    }
}

impl CommentSubmission {
    /// A new submission of `form` to the post `slug`.
    pub fn new(
        slug: String,
        form: CommentForm,
        session: Option<SessionCommenter>,
        ip: String,
        user_agent: String,
        turnstile_secret: String,
    ) -> (r: CommentSubmission)
        ensures
            r.stage is Begin,
            r.slug == slug && r.form == form && r.session == session && r.ip == ip && r.user_agent == user_agent
                && r.turnstile_secret == turnstile_secret,
    {
        CommentSubmission { stage: SubmitStage::Begin, slug, form, session, ip, user_agent, turnstile_secret }
    }

    /// The next step of the submission, given the server's report `event`:
    /// honeypot, then CAPTCHA (when configured), then the rate limit of three
    /// comments per ten minutes per client, then the post, then the comment
    /// rules; an approved comment clears the post's caches before the
    /// visitor is sent back to the comment section.
    pub fn step(&mut self, filter: &ContentFilter, event: SubmitEvent) -> (a: SubmitAction)
        requires
            expects(old(self).stage, event),
        ensures
            final(self).slug == old(self).slug && final(self).form == old(self).form
                && final(self).session == old(self).session && final(self).ip == old(self).ip
                && final(self).user_agent == old(self).user_agent
                && final(self).turnstile_secret == old(self).turnstile_secret,
            step_outcome(*old(self), *final(self), filter.words(), event, a),
    {
        let mut stage = SubmitStage::Finished;
        std::mem::swap(&mut stage, &mut self.stage);
        match stage {
            SubmitStage::Begin => {
                if honeypot_triggered(&self.form) {
                    return SubmitAction::Redirect { location: redirect_to_post(self.slug.as_str()) };
                }
                match captcha_check(self.turnstile_secret.as_str(), &self.form.cf_turnstile_response) {
                    CaptchaCheck::NotRequired => {
                        self.stage = SubmitStage::RateLimit;
                        SubmitAction::CountRequest {
                            key: crate::services::rate_limiter::rate_key(self.ip.as_str()),
                            window_secs: COMMENT_RATE_WINDOW_SECS,
                        }
                    },
                    CaptchaCheck::Missing => SubmitAction::Fail(AppError::BadRequest(owned("CAPTCHA diperlukan."))),
                    CaptchaCheck::Verify => {
                        let token = match &self.form.cf_turnstile_response {
                            Some(t) => t.clone(),
                            None => String::new(),
                        };
                        self.stage = SubmitStage::Captcha;
                        SubmitAction::VerifyCaptcha { token, secret: self.turnstile_secret.clone() }
                    },
                }
            },
            SubmitStage::Captcha => {
                if let SubmitEvent::CaptchaVerified(true) = event {
                    self.stage = SubmitStage::RateLimit;
                    SubmitAction::CountRequest {
                        key: crate::services::rate_limiter::rate_key(self.ip.as_str()),
                        window_secs: COMMENT_RATE_WINDOW_SECS,
                    }
                } else {
                    SubmitAction::Fail(AppError::BadRequest(owned("Verifikasi CAPTCHA gagal. Silakan coba lagi.")))
                }
            },
            SubmitStage::RateLimit => {
                let count = match event {
                    SubmitEvent::RequestCounted(c) => c,
                    _ => 0,
                };
                if crate::services::rate_limiter::within_limit(count, COMMENT_RATE_LIMIT) {
                    self.stage = SubmitStage::Lookup;
                    SubmitAction::FindPost { slug: self.slug.clone() }
                } else {
                    SubmitAction::Fail(AppError::RateLimited)
                }
            },
            SubmitStage::Lookup => {
                match event {
                    SubmitEvent::PostLookedUp(Some(post)) => {
                        let r = prepare_comment(&self.form, &self.session, post.id, filter, self.ip.as_str(), self.user_agent.as_str());
                        match r {
                            Ok(p) => {
                                let approved = match p.status {
                                    CommentStatus::Approved => true,
                                    CommentStatus::Pending => false,
                                };
                                self.stage = SubmitStage::Storing { approved, post };
                                SubmitAction::Store { data: p.data, status: p.status }
                            },
                            Err(e) => SubmitAction::Fail(e),
                        }
                    },
                    _ => SubmitAction::Fail(AppError::NotFound(owned("Artikel tidak ditemukan"))),
                }
            },
            SubmitStage::Storing { approved, post } => {
                if approved {
                    let mut ops: Vec<crate::services::cache::CacheOp> = Vec::new();
                    ops.push(crate::services::cache::invalidate_comments(post.id));
                    let slug_en = match &post.slug_en {
                        Some(e) => Some(e.as_str()),
                        None => None,
                    };
                    let mut more = crate::services::cache::invalidate_post(post.slug.as_str(), slug_en);
                    let ghost rest = more@;
                    ops.append(&mut more);
                    assert(ops@.skip(1) =~= rest);
                    self.stage = SubmitStage::Clearing;
                    SubmitAction::Invalidate { ops }
                } else {
                    SubmitAction::Redirect { location: redirect_to_post(self.slug.as_str()) }
                }
            },
            SubmitStage::Clearing => SubmitAction::Redirect { location: redirect_to_post(self.slug.as_str()) },
            SubmitStage::Finished => SubmitAction::Fail(AppError::Internal(owned("submission already finished"))),
        }
    }
}

/// Law: a submission that fills in the honeypot ends at once with the
/// ordinary redirect (the bot is not told), and nothing is stored.
pub proof fn law_honeypot_is_silent(
    s: CommentSubmission,
    f: CommentSubmission,
    words: Seq<crate::services::content_filter::BlockedWord>,
    a: SubmitAction,
)
    requires
        step_outcome(s, f, words, SubmitEvent::Start, a),
        s.stage is Begin,
        s.form.website matches Some(w) && w@.len() > 0,
    ensures
        f.stage is Finished,
        redirects_to_post(a, s.slug@),
{
}

/// Law: a client over the limit (a fourth comment within ten minutes) is
/// refused with "Too Many Requests", before the post or the comment is looked at.
pub proof fn law_rate_limit_refuses(
    s: CommentSubmission,
    f: CommentSubmission,
    words: Seq<crate::services::content_filter::BlockedWord>,
    c: u32,
    a: SubmitAction,
)
    requires
        step_outcome(s, f, words, SubmitEvent::RequestCounted(c), a),
        s.stage is RateLimit,
        c > 3,
    ensures
        f.stage is Finished,
        a matches SubmitAction::Fail(e) && e is RateLimited,
{
}

/// Law: within one rate window, starting from no counter, the k-th
/// submission from an address gets past the rate limit (on to the post
/// lookup) exactly when k ≤ 3; so at most three of them get past it.
pub proof fn law_three_comments_per_window(
    s: CommentSubmission,
    f: CommentSubmission,
    words: Seq<crate::services::content_filter::BlockedWord>,
    k: nat,
    a: SubmitAction,
)
    requires
        1 <= k <= u32::MAX,
        step_outcome(s, f, words, SubmitEvent::RequestCounted(counter_after(k) as u32), a),
        s.stage is RateLimit,
    ensures
        a is FindPost <==> k <= 3,
        allowed_requests(k, COMMENT_RATE_LIMIT) <= 3,
{
    law_requests_in_window(k, COMMENT_RATE_LIMIT);
}

/// Law: a comment is only ever stored after the post was found, and then as
/// the comment rules prepare it (so never with a blocked word).
pub proof fn law_store_follows_rules(
    s: CommentSubmission,
    f: CommentSubmission,
    words: Seq<crate::services::content_filter::BlockedWord>,
    event: SubmitEvent,
    a: SubmitAction,
)
    requires
        step_outcome(s, f, words, event, a),
        a is Store,
    ensures
        s.stage is Lookup,
        event matches SubmitEvent::PostLookedUp(Some(post)) && comment_outcome(s.form, s.session, post.id, words,
            s.ip@, s.user_agent@, Ok(PreparedComment { data: a->Store_data, status: a->Store_status })),
{
}

/// Law: a stored comment is approved exactly when neither its text nor its
/// author name holds more than two links.
pub proof fn law_comment_approval(
    form: CommentForm,
    session: Option<SessionCommenter>,
    post_id: u64,
    words: Seq<crate::services::content_filter::BlockedWord>,
    ip: Seq<char>,
    user_agent: Seq<char>,
    r: Result<PreparedComment, AppError>,
)
    requires
        comment_outcome(form, session, post_id, words, ip, user_agent, r),
        r is Ok,
    ensures
        r->Ok_0.status is Approved <==> !flagged(comment_text(form)) && !flagged(author_name_of(form, session)),
{
}

/// Law: a comment whose text holds a blocked word (as written, in lower case)
/// and at most two links is never stored.
pub proof fn law_blocked_comment_refused(
    form: CommentForm,
    session: Option<SessionCommenter>,
    post_id: u64,
    words: Seq<crate::services::content_filter::BlockedWord>,
    ip: Seq<char>,
    user_agent: Seq<char>,
    r: Result<PreparedComment, AppError>,
    i: int,
)
    requires
        comment_outcome(form, session, post_id, words, ip, user_agent, r),
        0 <= i < words.len(),
        has_substring(lowercase(comment_text(form)), words[i].word@),
        !flagged(comment_text(form)),
    ensures
        r is Err,
{
    let text = comment_text(form);
    let lower = lowercase(text);
    assert(has_substring(normalize_seq(lower), words[i].word@) || has_substring(lower, words[i].word@));
    assert(blocked(words, text));
}

} // verus!
