use argon2::password_hash::{PasswordHasher, SaltString};
use jagad_shalawat::config::{Config, EnvVars};
use jagad_shalawat::error::AppError;
use jagad_shalawat::models::admin_user::AdminUser;
use jagad_shalawat::models::post::{BlogPost, PostSummary, UpdatePost};
use jagad_shalawat::routes::admin::auth::{
    forgot_password_reply, forgot_password_step, login_notice, login_outcome, reset_link, reset_password_hash, LoginQuery,
};
use jagad_shalawat::routes::admin::contributors::{contributor_update, new_contributor, ContributorForm};
use jagad_shalawat::routes::admin::media::{
    is_image_content_type, needs_resize, process_upload, upload_locations, upload_too_large,
};
use jagad_shalawat::routes::admin::posts::{
    parse_sources_json, parse_tags_json, prepare_post, publish_now, publish_time, translation, update_invalidations,
    PostForm,
};
use jagad_shalawat::routes::admin::{require_admin, require_auth};
use jagad_shalawat::routes::auth::{
    callback_return_url, github_display_name, github_email, google_auth_url, needs_email_list, sanitize_return_url,
    GitHubEmail,
};
use jagad_shalawat::routes::blog::{
    alternate_lang_url, capitalize_words, category_cache_key, category_page_meta, check_slug, current_page,
    cached_page_response, listing_cache_key, total_pages, x_cache, PaginationQuery,
};
use jagad_shalawat::services::cache::{invalidate_post, CacheOp};
use jagad_shalawat::services::email::{reset_email_html, smtp_settings};
use jagad_shalawat::services::rate_limiter::{rate_key, remaining, within_limit};

fn vars() -> EnvVars {
    EnvVars {
        bind_address: None,
        base_url: Some("https://b".to_string()),
        database_url: Some("mysql://d".to_string()),
        redis_url: Some("redis://r".to_string()),
        session_secret: Some("s".to_string()),
        turnstile_site_key: Some("k".to_string()),
        turnstile_secret_key: Some("t".to_string()),
        google_client_id: None,
        google_client_secret: None,
        google_redirect_url: None,
        github_client_id: None,
        github_client_secret: None,
        github_redirect_url: None,
        gcs_bucket: None,
        gcs_credentials_path: None,
        translation_api_key: None,
        smtp_username: Some("u".to_string()),
        smtp_password: None,
        smtp_server: None,
    }
}

#[test]
fn config_defaults_and_required_settings() {
    let c = Config::from_vars(&vars()).ok().unwrap();
    assert_eq!(c.bind_address, "127.0.0.1:8080");
    assert_eq!(c.base_url, "https://b");
    let mut v = vars();
    v.redis_url = None;
    assert_eq!(Config::from_vars(&v).err().unwrap(), "REDIS_URL must be set");
    match smtp_settings(&c) {
        Err(AppError::Internal(m)) => assert_eq!(m, "SMTP_PASSWORD belum diatur di .env"),
        _ => panic!(),
    }
}

#[test]
fn error_statuses_and_messages() {
    assert_eq!(AppError::NotFound("x".to_string()).status_code(), 404);
    assert_eq!(AppError::Unauthorized.status_code(), 401);
    assert_eq!(AppError::BadRequest("b".to_string()).status_code(), 400);
    assert_eq!(AppError::RateLimited.status_code(), 429);
    assert_eq!(AppError::Database("boom".to_string()).status_code(), 500);
    assert_eq!(AppError::Database("boom".to_string()).public_message(), "Internal Server Error");
    assert_eq!(AppError::Database("boom".to_string()).display_text(), "Database error: boom");
    assert_eq!(AppError::RateLimited.display_text(), "Too Many Requests");
    assert_eq!(AppError::BadRequest("b".to_string()).public_message(), "b");
    match AppError::from_database(true, "x".to_string()) {
        AppError::NotFound(m) => assert_eq!(m, "Record not found"),
        _ => panic!(),
    }
}

#[test]
fn access_rules() {
    assert!(require_auth(Some(true)).is_ok());
    assert!(require_auth(None).is_err());
    assert!(require_admin(Some(true), &None).is_ok());
    assert!(require_admin(Some(true), &Some("admin".to_string())).is_ok());
    assert!(require_admin(Some(true), &Some("contributor".to_string())).is_err());
    assert!(require_admin(Some(false), &None).is_err());
    assert!(jagad_shalawat::middleware::auth::require_admin(Some(true)).is_ok());
}

#[test]
fn paging_and_cache_keys() {
    assert_eq!(current_page(&PaginationQuery { halaman: None }), 1);
    assert_eq!(current_page(&PaginationQuery { halaman: Some(-3) }), 1);
    assert_eq!(current_page(&PaginationQuery { halaman: Some(4) }), 4);
    assert_eq!(total_pages(0), 0);
    assert_eq!(total_pages(12), 1);
    assert_eq!(total_pages(13), 2);
    assert_eq!(total_pages(-5), 0);
    assert_eq!(total_pages(-13), -1);
    assert_eq!(total_pages(-24), -2);
    assert_eq!(listing_cache_key(3), "blog:listing:id:page:3");
    assert_eq!(category_cache_key("tech", 10), "blog:listing:id:cat:tech:page:10");
    assert_eq!(jagad_shalawat::routes::blog_en::listing_cache_key(1), "blog:listing:en:page:1");
    assert_eq!(PostSummary::listing_offset(0, 12), 0);
    assert_eq!(PostSummary::listing_offset(3, 12), 24);
    assert_eq!(BlogPost::listing_offset(2, 10), 10);
}

#[test]
fn titles_and_reserved_paths() {
    assert_eq!(capitalize_words("  digital   payments now "), "Digital Payments Now");
    assert_eq!(capitalize_words("ßtraße"), "SStraße");
    let m = category_page_meta("sharia-finance", "https://b");
    assert_eq!(m.category_title, "Sharia Finance");
    assert_eq!(m.page_title, "Sharia Finance — Blog Tagih Otomatis");
    assert_eq!(m.canonical_url, "https://b/blog/kategori/sharia-finance");
    assert!(check_slug("admin").is_err());
    assert!(check_slug("my-post").is_ok());
    assert!(jagad_shalawat::routes::blog_en::check_slug("category").is_err());
    assert_eq!(alternate_lang_url(&Some("  ".to_string())), "/blog/en");
    assert_eq!(alternate_lang_url(&Some("x".to_string())), "/blog/en/x");
}

#[test]
fn return_urls_stay_in_blog() {
    assert_eq!(sanitize_return_url(Some("/blog/post"), None), "/blog/post");
    assert_eq!(sanitize_return_url(Some("https://evil.com"), None), "/blog");
    assert_eq!(sanitize_return_url(None, Some("https://site.org/blog/x?y=1")), "/blog/x");
    assert_eq!(sanitize_return_url(None, Some("https://site.org/other")), "/blog");
    assert_eq!(sanitize_return_url(None, Some("/blog/rel")), "/blog/rel");
    assert_eq!(callback_return_url(&Some("  ".to_string()), &Some("/blog/s".to_string())), "/blog/s");
    assert_eq!(callback_return_url(&Some("/blog/q".to_string()), &None), "/blog/q");
    assert_eq!(callback_return_url(&Some("/x".to_string()), &Some("/y".to_string())), "/blog");
}

#[test]
fn oauth_urls_and_profile() {
    assert_eq!(
        google_auth_url("id 1", "https://b/cb", "/blog"),
        "https://accounts.google.com/o/oauth2/v2/auth?client_id=id%201&redirect_uri=https%3A%2F%2Fb%2Fcb&response_type=code&scope=openid%20email%20profile&access_type=online&state=%2Fblog"
    );
    let list = vec![
        GitHubEmail { email: "a@x".to_string(), primary: false },
        GitHubEmail { email: "b@x".to_string(), primary: true },
    ];
    assert_eq!(github_email(&None, &Some(list)), "b@x");
    assert_eq!(github_email(&Some("c@x".to_string()), &None), "c@x");
    assert_eq!(github_email(&None, &None), "");
    assert_eq!(github_display_name(&None, "octo"), "octo");
}

#[test]
fn cache_invalidation_plan() {
    let ops = invalidate_post("p", Some("e"));
    let keys: Vec<String> = ops
        .iter()
        .map(|o| match o {
            CacheOp::Delete(k) => k.clone(),
            CacheOp::DeletePattern(p) => format!("pattern:{}", p),
        })
        .collect();
    assert_eq!(keys, vec!["blog:page:id:p", "blog:page:en:e", "pattern:blog:listing:*", "blog:sitemap", "blog:feed:id", "blog:feed:en"]);
    assert_eq!(invalidate_post("p", None).len(), 5);
    assert_eq!(update_invalidations("new", None, "old", None).len(), 11);
    assert_eq!(update_invalidations("same", None, "same", None).len(), 6);
}

#[test]
fn rate_limit_rules() {
    assert_eq!(rate_key("1.1.1.1"), "blog:rate:1.1.1.1");
    assert!(within_limit(3, 3));
    assert!(!within_limit(4, 3));
    assert_eq!(remaining(None, 3), 3);
    assert_eq!(remaining(Some(1), 3), 2);
    assert_eq!(remaining(Some(5), 3), 0);
}

#[test]
fn tags_and_sources_json() {
    assert_eq!(parse_tags_json(Some(" [\"a\", 'b', , c ] ")).as_deref(), Some("[\"a\",\"b\",\"c\"]"));
    assert_eq!(parse_tags_json(Some("   ")), None);
    assert_eq!(parse_tags_json(Some("[ , ]")), None);
    assert_eq!(parse_tags_json(None), None);
    assert_eq!(
        parse_sources_json(Some("Kitab | https://x.com/a\nhttps://www.example.org/page\n\nplain text")).as_deref(),
        Some("[{\"title\":\"Kitab\",\"url\":\"https://x.com/a\"},{\"title\":\"example.org\",\"url\":\"https://www.example.org/page\"},{\"title\":\"plain text\",\"url\":\"plain text\"}]")
    );
    assert_eq!(parse_sources_json(Some("[ {\"url\": \"u\"} ]")).as_deref(), Some("[{\"url\":\"u\"}]"));
    assert_eq!(parse_sources_json(Some("")), None);
}

fn post_form() -> PostForm {
    PostForm {
        title: "Hello World!".to_string(),
        slug: Some("  ".to_string()),
        content_markdown: "# H\n\nFirst words here.".to_string(),
        title_en: Some(" ".to_string()),
        slug_en: Some("hello-en".to_string()),
        excerpt_en: None,
        content_markdown_en: Some("Hi".to_string()),
        meta_description: None,
        meta_description_en: None,
        excerpt: None,
        category: None,
        tags: Some("x".to_string()),
        sources: None,
        source_url: None,
        source_name: None,
        featured_image: None,
        status: None,
    }
}

#[test]
fn post_preparation() {
    let p = prepare_post(&post_form());
    assert_eq!(p.slug, "hello-world");
    assert_eq!(p.status, "draft");
    assert_eq!(p.reading_time, 1);
    // The excerpt is the first line of the rendered HTML (here the heading).
    assert!(p.excerpt.starts_with("<h1 id=\"h\">H"));
    let mut f = post_form();
    f.content_markdown = "First words here.\n\nMore.".to_string();
    assert_eq!(prepare_post(&f).excerpt, "<p>First words here.</p>");
    assert_eq!(p.tags_json.as_deref(), Some("[\"x\"]"));
    assert_eq!(p.title_en, None);
    assert_eq!(p.slug_en.as_deref(), Some("hello-en"));
    assert_eq!(p.content_html_en.as_deref(), Some("<p>Hi</p>\n"));
    let t = translation("Apa Kabar?", "text");
    assert_eq!(t.slug_en, "apa-kabar-en");
}

#[test]
fn publication_times() {
    assert_eq!(publish_time("published", None, 5), Some(5));
    assert_eq!(publish_time("published", Some(1), 5), Some(1));
    assert_eq!(publish_time("draft", None, 5), None);
    assert_eq!(publish_now(Some(1), 5), 1);
    assert_eq!(publish_now(None, 5), 5);
}

fn user(active: i8, hash: &str) -> AdminUser {
    AdminUser {
        id: 3,
        username: "root".to_string(),
        email: None,
        password_hash: hash.to_string(),
        display_name: None,
        role: None,
        is_active: active,
        reset_token: None,
        reset_token_expires_at: None,
        last_login_at: None,
        created_at: 0,
    }
}

fn argon2_hash(password: &str) -> String {
    let salt = SaltString::from_b64("c2FsdHNhbHRzYWx0").unwrap();
    argon2::Argon2::default().hash_password(password.as_bytes(), &salt).unwrap().to_string()
}

#[test]
fn admin_sign_in() {
    let hash = argon2_hash("secret");
    let s = login_outcome(&Some(user(1, &hash)), "secret").ok().unwrap();
    assert_eq!(s.admin_id, 3);
    assert_eq!(s.role, "admin");
    assert_eq!(s.display_name, "Tim Jagad Shalawat");
    match login_outcome(&Some(user(1, &hash)), "wrong") {
        Err(AppError::BadRequest(m)) => assert_eq!(m, "Username atau password salah."),
        _ => panic!(),
    }
    match login_outcome(&None, "x") {
        Err(AppError::BadRequest(m)) => assert_eq!(m, "Username atau password salah."),
        _ => panic!(),
    }
    match login_outcome(&Some(user(0, &hash)), "secret") {
        Err(AppError::BadRequest(m)) => assert_eq!(m, "Akun Anda telah dinonaktifkan."),
        _ => panic!(),
    }
    match login_outcome(&Some(user(1, "not-a-hash")), "secret") {
        Err(AppError::Internal(m)) => assert!(m.starts_with("Hash parse error: ")),
        _ => panic!(),
    }
    assert_eq!(login_notice(&LoginQuery { reset: Some("success".to_string()) }), Some("Password berhasil diubah. Silakan login."));
    assert_eq!(login_notice(&LoginQuery { reset: None }), None);
    assert_eq!(reset_link("https://b", "tok"), "https://b/blog/admin/reset-password?token=tok");
}

#[test]
fn contributor_accounts() {
    let f = ContributorForm {
        username: "c".to_string(),
        email: "c@x".to_string(),
        display_name: "C".to_string(),
        password: Some(" ".to_string()),
        is_active: Some("on".to_string()),
    };
    let n = new_contributor(&f).ok().unwrap();
    assert_eq!(n.role, "contributor");
    assert_eq!(n.is_active, 1);
    assert!(n.password_hash.starts_with("$argon2"));
    let u = contributor_update(&f).ok().unwrap();
    assert!(u.password_hash.is_none());
}

#[test]
fn upload_rules() {
    assert!(is_image_content_type("image/png"));
    assert!(!is_image_content_type("text/plain"));
    assert!(upload_too_large(10 * 1024 * 1024 + 1));
    assert!(!upload_too_large(10 * 1024 * 1024));
    assert!(needs_resize(1025, 10));
    assert!(!needs_resize(1024, 1024));
    let (path, url) = upload_locations("abc");
    assert_eq!(path, "src/static/uploads/abc.webp");
    assert_eq!(url, "/blog/static/uploads/abc.webp");
}

#[test]
fn reset_email_body() {
    let html = reset_email_html("https://l");
    assert!(html.contains("<p><a href=\"https://l\">Reset Password</a></p>"));
    assert!(html.starts_with("\n        <p>Halo,</p>"));
}

#[test]
fn update_merge_keeps_unset_fields() {
    let current = BlogPost {
        id: 1, slug: "s".to_string(), slug_en: None, title: "T".to_string(), title_en: None,
        meta_description: Some("m".to_string()), meta_description_en: None, excerpt: None, excerpt_en: None,
        content_markdown: "md".to_string(), content_markdown_en: None, content_html: String::new(), content_html_en: None,
        featured_image: None, author_name: "a".to_string(), category: "c".to_string(), tags: None, sources: None,
        source_url: None, source_name: None, status: "draft".to_string(), published_at: None, reading_time_minutes: 1,
        view_count: 0, is_featured: 0, created_at: 0, updated_at: 0,
    };
    let data = UpdatePost {
        title: Some("New".to_string()), slug: None, content_markdown: None, meta_description: None, excerpt: Some("e".to_string()),
        category: None, tags: None, source_url: None, source_name: None, featured_image: None, status: None,
    };
    let v = BlogPost::merge_update(&current, &data);
    assert_eq!(v.title, "New");
    assert_eq!(v.slug, "s");
    assert_eq!(v.meta_description.as_deref(), Some("m"));
    assert_eq!(v.excerpt.as_deref(), Some("e"));
    assert_eq!(v.status, "draft");
}

#[test]
fn reset_password_then_sign_in() {
    let hash = reset_password_hash(true, "n3w-pass").ok().unwrap();
    let s = login_outcome(&Some(user(1, &hash)), "n3w-pass").ok().unwrap();
    assert_eq!(s.admin_id, 3);
    assert!(login_outcome(&Some(user(1, &hash)), "old-pass").is_err());
    match reset_password_hash(false, "n3w-pass") {
        Err(AppError::BadRequest(m)) => assert_eq!(m, "Token tidak valid atau sudah kedaluwarsa."),
        _ => panic!(),
    }
}

#[test]
fn new_contributor_signs_in_with_default_password() {
    let form = ContributorForm {
        username: "ana".to_string(),
        email: "ana@example.org".to_string(),
        display_name: "Ana".to_string(),
        password: None,
        is_active: Some("on".to_string()),
    };
    let c = new_contributor(&form).ok().unwrap();
    assert!(login_outcome(&Some(user(c.is_active, &c.password_hash)), "password123").is_ok());
}

#[test]
fn forgot_password_same_answer_either_way() {
    let known = forgot_password_step(Some(7), "ana@example.org", "tok-1", "https://jagad.example");
    let unknown = forgot_password_step(None, "nobody@example.org", "tok-2", "https://jagad.example");
    assert_eq!(known.notice, unknown.notice);
    assert_eq!(known.notice, "Jika email terdaftar, link reset password telah dikirim.");
    assert!(unknown.reset.is_none());
    let r = known.reset.unwrap();
    assert_eq!(r.user_id, 7);
    assert_eq!(r.token, "tok-1");
    assert_eq!(r.expires_in_minutes, 60);
    assert_eq!(r.to, "ana@example.org");
    assert_eq!(r.link, "https://jagad.example/blog/admin/reset-password?token=tok-1");
}

#[test]
fn rate_limit_over_a_window() {
    let allowed: Vec<bool> = (1u32..=5).map(|k| within_limit(k, 3)).collect();
    assert_eq!(allowed, vec![true, true, true, false, false]);
}

fn webp_bytes(w: u32, h: u32) -> Vec<u8> {
    let img = image::DynamicImage::ImageRgb8(image::RgbImage::from_pixel(w, h, image::Rgb([200, 30, 90])));
    let mut out = std::io::Cursor::new(Vec::new());
    img.write_to(&mut out, image::ImageFormat::WebP).unwrap();
    out.into_inner()
}

#[test]
fn upload_processing() {
    let big = process_upload(&webp_bytes(2000, 10)).ok().unwrap();
    let decoded = image::load_from_memory(&big).unwrap();
    assert_eq!((decoded.width(), decoded.height()), (1024, 5));
    let small = process_upload(&webp_bytes(10, 20)).ok().unwrap();
    let decoded = image::load_from_memory(&small).unwrap();
    assert_eq!((decoded.width(), decoded.height()), (10, 20));
    match process_upload(b"not an image") {
        Err(AppError::BadRequest(m)) => assert!(m.starts_with("Invalid image: ")),
        _ => panic!("expected an invalid image"),
    }
}

#[test]
fn forgot_password_reply_hides_delivery() {
    let notice = "Jika email terdaftar, link reset password telah dikirim.";
    assert_eq!(forgot_password_reply(None), notice);
    assert_eq!(forgot_password_reply(Some(true)), notice);
    assert_eq!(forgot_password_reply(Some(false)), notice);
}

#[test]
fn github_email_list_only_without_profile_address() {
    assert!(needs_email_list(&None));
    assert!(!needs_email_list(&Some("a@b.c".to_string())));
}

#[test]
fn cache_answers() {
    assert_eq!(x_cache(true), "HIT");
    assert_eq!(x_cache(false), "MISS");
    let c = cached_page_response();
    assert_eq!(c.x_cache, "HIT");
    assert_eq!(c.cache_control, "public, max-age=0, must-revalidate, s-maxage=86400");
    assert!(!c.store);
}

#[test]
fn contributor_update_hashes_given_password() {
    let form = ContributorForm {
        username: "ana".to_string(),
        email: "ana@example.org".to_string(),
        display_name: "Ana".to_string(),
        password: Some("s3cret!".to_string()),
        is_active: None,
    };
    let u = contributor_update(&form).ok().unwrap();
    let hash = u.password_hash.unwrap();
    assert!(login_outcome(&Some(user(1, &hash)), "s3cret!").is_ok());
}
