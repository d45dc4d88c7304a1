use jagad_shalawat::error::AppError;
use jagad_shalawat::models::comment::BlogComment;
use jagad_shalawat::routes::comment::{
    captcha_check, captcha_error, gravatar_url, honeypot_triggered, prepare_comment, redirect_to_post, CaptchaCheck,
    CommentForm, CommentStatus, CommentSubmission, PostRef, SessionCommenter, SubmitAction, SubmitEvent,
};
use jagad_shalawat::services::cache::CacheOp;
use jagad_shalawat::services::content_filter::{BlockedWordRow, ContentFilter, FilterResult};

fn filter() -> ContentFilter {
    ContentFilter::new(&vec![
        BlockedWordRow { word: "SPAM".to_string(), category: "ads".to_string(), is_regex: 0 },
        BlockedWordRow { word: "bad".to_string(), category: "rude".to_string(), is_regex: 1 },
    ])
}

fn form(name: Option<&str>, content: &str) -> CommentForm {
    CommentForm {
        author_name: name.map(|s| s.to_string()),
        author_email: Some("  MyEmailAddress@example.com ".to_string()),
        content: content.to_string(),
        parent_id: Some(4),
        website: None,
        cf_turnstile_response: None,
    }
}

fn bad_request(r: Result<jagad_shalawat::routes::comment::PreparedComment, AppError>) -> String {
    match r {
        Err(AppError::BadRequest(m)) => m,
        _ => panic!("expected a bad request"),
    }
}

#[test]
fn normalization_undoes_evasions() {
    assert_eq!(ContentFilter::normalize_evasion("b.4-d_ $p@m"), "badspam");
    assert_eq!(ContentFilter::normalize_evasion("h3ll0 w0r1d 7"), "helloworidt");
    let once = ContentFilter::normalize_evasion("x.1.3");
    assert_eq!(ContentFilter::normalize_evasion(&once), once);
}

#[test]
fn filter_verdicts() {
    let f = filter();
    assert!(matches!(f.check("hello there"), FilterResult::Clean));
    match f.check("This is S.P.A.M") {
        FilterResult::Blocked { category, matched_word } => {
            assert_eq!(category, "ads");
            assert_eq!(matched_word, "spam");
        }
        _ => panic!("expected blocked"),
    }
    match f.check("b4d and spam") {
        FilterResult::Blocked { category, .. } => assert_eq!(category, "ads"),
        _ => panic!("expected blocked"),
    }
    match f.check("http://a https://b HTTP://c spam") {
        FilterResult::Suspicious { reason } => assert_eq!(reason, "Too many URLs"),
        _ => panic!("expected suspicious"),
    }
    assert!(matches!(f.check("http://a https://b"), FilterResult::Clean));
}

#[test]
fn gravatar_of_documented_address() {
    assert_eq!(
        gravatar_url(" MyEmailAddress@example.com "),
        "https://www.gravatar.com/avatar/0bc83cb571cd1c50ba6f3e8a78ef1346?d=mp&s=80"
    );
}

#[test]
fn honeypot_and_captcha() {
    let mut f = form(Some("Ann"), "hi");
    assert!(!honeypot_triggered(&f));
    f.website = Some(String::new());
    assert!(!honeypot_triggered(&f));
    f.website = Some("http://bot".to_string());
    assert!(honeypot_triggered(&f));
    assert!(matches!(captcha_check("", &None), CaptchaCheck::NotRequired));
    assert!(matches!(captcha_check("dummy", &None), CaptchaCheck::NotRequired));
    assert!(matches!(captcha_check("secret", &None), CaptchaCheck::Missing));
    assert!(matches!(captcha_check("secret", &Some("t".to_string())), CaptchaCheck::Verify));
    match captcha_error(&CaptchaCheck::Missing, false) {
        Some(AppError::BadRequest(m)) => assert_eq!(m, "CAPTCHA diperlukan."),
        _ => panic!(),
    }
    match captcha_error(&CaptchaCheck::Verify, false) {
        Some(AppError::BadRequest(m)) => assert_eq!(m, "Verifikasi CAPTCHA gagal. Silakan coba lagi."),
        _ => panic!(),
    }
    assert!(captcha_error(&CaptchaCheck::Verify, true).is_none());
}

#[test]
fn anonymous_comment_is_approved_and_sanitized() {
    let f = filter();
    let p = prepare_comment(&form(Some("Ann"), "  <b>Nice</b> post  "), &None, 9, &f, "1.2.3.4", "UA").unwrap();
    assert!(matches!(p.status, CommentStatus::Approved));
    assert_eq!(p.status.as_str(), "approved");
    assert_eq!(p.data.post_id, 9);
    assert_eq!(p.data.parent_id, Some(4));
    assert_eq!(p.data.author_name, "Ann");
    assert_eq!(p.data.content, "Nice post");
    assert_eq!(p.data.author_avatar_url.as_deref(), Some("https://www.gravatar.com/avatar/0bc83cb571cd1c50ba6f3e8a78ef1346?d=mp&s=80"));
    assert_eq!(p.data.oauth_provider, None);
    assert_eq!(p.data.ip_address.as_deref(), Some("1.2.3.4"));
    assert_eq!(p.data.user_agent.as_deref(), Some("UA"));
}

#[test]
fn session_commenter_and_pending_links() {
    let f = filter();
    let s = SessionCommenter {
        name: "Bo".to_string(),
        provider: "github".to_string(),
        email: None,
        avatar: Some("a.png".to_string()),
        oauth_id: Some("42".to_string()),
    };
    let p = prepare_comment(&form(None, "see http://a http://b http://c"), &Some(s), 1, &f, "ip", "ua").unwrap();
    assert!(matches!(p.status, CommentStatus::Pending));
    assert_eq!(p.status.as_str(), "pending");
    assert_eq!(p.data.author_name, "Bo");
    assert_eq!(p.data.oauth_provider.as_deref(), Some("github"));
    assert_eq!(p.data.author_avatar_url.as_deref(), Some("a.png"));
    assert_eq!(p.data.author_email, None);
}

#[test]
fn comment_refusals() {
    let f = filter();
    assert_eq!(bad_request(prepare_comment(&form(None, "x"), &None, 1, &f, "", "")), "Nama wajib diisi.");
    assert_eq!(bad_request(prepare_comment(&form(Some("   "), "x"), &None, 1, &f, "", "")), "Nama wajib diisi.");
    assert_eq!(bad_request(prepare_comment(&form(Some("A"), "  \n "), &None, 1, &f, "", "")), "Komentar tidak boleh kosong.");
    let long = "é".repeat(5001);
    assert_eq!(
        bad_request(prepare_comment(&form(Some("A"), &long), &None, 1, &f, "", "")),
        "Komentar terlalu panjang (maks 5000 karakter)."
    );
    let ok_len = "é".repeat(5000);
    assert!(prepare_comment(&form(Some("A"), &ok_len), &None, 1, &f, "", "").is_ok());
    let two_byte = "é".repeat(2501);
    assert!(prepare_comment(&form(Some("A"), &two_byte), &None, 1, &f, "", "").is_ok());
    assert_eq!(bad_request(prepare_comment(&form(Some("A"), "so bad"), &None, 1, &f, "", "")), "Komentar mengandung kata yang diblokir.");
    assert_eq!(bad_request(prepare_comment(&form(Some("spam king"), "fine"), &None, 1, &f, "", "")), "Nama mengandung kata yang diblokir.");
}

#[test]
fn redirect_goes_to_comment_section() {
    assert_eq!(redirect_to_post("abc"), "/blog/abc#komentar");
}

fn comment(id: u64, parent: Option<u64>) -> BlogComment {
    BlogComment {
        id,
        post_id: 1,
        parent_id: parent,
        author_name: format!("a{}", id),
        author_email: None,
        author_avatar_url: None,
        content: format!("c{}", id),
        oauth_provider: None,
        oauth_id: None,
        ip_address: None,
        user_agent: None,
        status: "approved".to_string(),
        rejection_reason: None,
        created_at: id as i64,
    }
}

#[test]
fn comments_are_threaded_one_level() {
    let cs = vec![comment(1, None), comment(2, Some(1)), comment(3, None), comment(4, Some(1)), comment(5, Some(2)), comment(6, Some(99))];
    let t = BlogComment::nest(&cs);
    assert_eq!(t.len(), 2);
    assert_eq!(t[0].id, 1);
    assert_eq!(t[0].replies.iter().map(|r| r.id).collect::<Vec<_>>(), vec![2, 4]);
    assert_eq!(t[1].id, 3);
    assert!(t[1].replies.is_empty());
    assert_eq!(t[0].replies[0].content, "c2");
    assert_eq!(BlogComment::page_offset(0, 20), 0);
    assert_eq!(BlogComment::page_offset(3, 20), 40);
}

fn submission(form: CommentForm, secret: &str) -> CommentSubmission {
    CommentSubmission::new(
        "hello".to_string(),
        form,
        None,
        "1.2.3.4".to_string(),
        "curl".to_string(),
        secret.to_string(),
    )
}

fn redirect_location(a: SubmitAction) -> String {
    match a {
        SubmitAction::Redirect { location } => location,
        _ => panic!("expected a redirect"),
    }
}

#[test]
fn submission_runs_every_step_for_an_approved_comment() {
    let f = filter();
    let mut s = submission(form(Some("Ana"), "Nice post"), "");
    match s.step(&f, SubmitEvent::Start) {
        SubmitAction::CountRequest { key, window_secs } => {
            assert_eq!(key, "blog:rate:1.2.3.4");
            assert_eq!(window_secs, 600);
        }
        _ => panic!("expected the request to be counted"),
    }
    match s.step(&f, SubmitEvent::RequestCounted(3)) {
        SubmitAction::FindPost { slug } => assert_eq!(slug, "hello"),
        _ => panic!("expected a post lookup"),
    }
    let post = PostRef { id: 9, slug: "hello".to_string(), slug_en: Some("hi".to_string()) };
    match s.step(&f, SubmitEvent::PostLookedUp(Some(post))) {
        SubmitAction::Store { data, status } => {
            assert_eq!(data.post_id, 9);
            assert_eq!(data.author_name, "Ana");
            assert_eq!(status.as_str(), "approved");
        }
        _ => panic!("expected the comment to be stored"),
    }
    match s.step(&f, SubmitEvent::Stored) {
        SubmitAction::Invalidate { ops } => {
            assert_eq!(ops.len(), 7);
            match &ops[0] {
                CacheOp::Delete(k) => assert_eq!(k, "blog:comments:9"),
                _ => panic!(),
            }
            match &ops[2] {
                CacheOp::Delete(k) => assert_eq!(k, "blog:page:en:hi"),
                _ => panic!(),
            }
        }
        _ => panic!("expected the caches to be cleared"),
    }
    assert_eq!(redirect_location(s.step(&f, SubmitEvent::CacheCleared)), "/blog/hello#komentar");
}

#[test]
fn submission_pending_comment_skips_cache_clearing() {
    let f = filter();
    let mut s = submission(form(Some("Ana"), "http://a http://b http://c"), "dummy");
    assert!(matches!(s.step(&f, SubmitEvent::Start), SubmitAction::CountRequest { .. }));
    assert!(matches!(s.step(&f, SubmitEvent::RequestCounted(1)), SubmitAction::FindPost { .. }));
    let post = PostRef { id: 2, slug: "hello".to_string(), slug_en: None };
    match s.step(&f, SubmitEvent::PostLookedUp(Some(post))) {
        SubmitAction::Store { status, .. } => assert_eq!(status.as_str(), "pending"),
        _ => panic!("expected the comment to be stored"),
    }
    assert_eq!(redirect_location(s.step(&f, SubmitEvent::Stored)), "/blog/hello#komentar");
}

#[test]
fn submission_refusals() {
    let f = filter();
    let mut bot = form(Some("Ana"), "hi");
    bot.website = Some("http://spam".to_string());
    let mut s = submission(bot, "s3cret");
    assert_eq!(redirect_location(s.step(&f, SubmitEvent::Start)), "/blog/hello#komentar");

    let mut s = submission(form(Some("Ana"), "hi"), "s3cret");
    match s.step(&f, SubmitEvent::Start) {
        SubmitAction::Fail(AppError::BadRequest(m)) => assert_eq!(m, "CAPTCHA diperlukan."),
        _ => panic!("expected a missing CAPTCHA"),
    }

    let mut with_token = form(Some("Ana"), "hi");
    with_token.cf_turnstile_response = Some("tok".to_string());
    let mut s = submission(with_token, "s3cret");
    match s.step(&f, SubmitEvent::Start) {
        SubmitAction::VerifyCaptcha { token, secret } => {
            assert_eq!(token, "tok");
            assert_eq!(secret, "s3cret");
        }
        _ => panic!("expected a CAPTCHA check"),
    }
    match s.step(&f, SubmitEvent::CaptchaVerified(false)) {
        SubmitAction::Fail(AppError::BadRequest(m)) => assert_eq!(m, "Verifikasi CAPTCHA gagal. Silakan coba lagi."),
        _ => panic!("expected a failed CAPTCHA"),
    }

    let mut s = submission(form(Some("Ana"), "hi"), "");
    s.step(&f, SubmitEvent::Start);
    assert!(matches!(s.step(&f, SubmitEvent::RequestCounted(4)), SubmitAction::Fail(AppError::RateLimited)));

    let mut s = submission(form(Some("Ana"), "hi"), "");
    s.step(&f, SubmitEvent::Start);
    s.step(&f, SubmitEvent::RequestCounted(1));
    match s.step(&f, SubmitEvent::PostLookedUp(None)) {
        SubmitAction::Fail(AppError::NotFound(m)) => assert_eq!(m, "Artikel tidak ditemukan"),
        _ => panic!("expected a missing post"),
    }

    let mut s = submission(form(Some("Ana"), "so bad"), "");
    s.step(&f, SubmitEvent::Start);
    s.step(&f, SubmitEvent::RequestCounted(1));
    let post = PostRef { id: 2, slug: "hello".to_string(), slug_en: None };
    match s.step(&f, SubmitEvent::PostLookedUp(Some(post))) {
        SubmitAction::Fail(AppError::BadRequest(m)) => assert_eq!(m, "Komentar mengandung kata yang diblokir."),
        _ => panic!("expected a blocked comment"),
    }
}
