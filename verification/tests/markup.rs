use jagad_shalawat::middleware::cache_headers::{no_cache_header, public_cache_header, static_cache_header};
use jagad_shalawat::middleware::security::security_headers;
use jagad_shalawat::models::post::{BlogPost, SourceValue};
use jagad_shalawat::routes::feed::{escape_xml, feed_cache_key, render_rss, rss_content_type, FEED_CACHE_TTL_SECS};
use jagad_shalawat::routes::sitemap::{
    render_sitemap, sitemap_cache_key, sitemap_content_type, SITEMAP_CACHE_TTL_SECS,
};
use jagad_shalawat::models::post::PostSummary;
use jagad_shalawat::services::markdown::{
    calculate_reading_time, extract_first_paragraph, render_markdown, sanitize_html,
};
use jagad_shalawat::services::seo::{
    generate_canonical, generate_hreflang_tags, generate_json_ld_article, generate_json_ld_breadcrumb,
    generate_og_tags,
};

fn post() -> BlogPost {
    BlogPost {
        id: 7,
        slug: "hello".to_string(),
        slug_en: Some("hello-en".to_string()),
        title: "Say \"hi\"".to_string(),
        title_en: None,
        meta_description: None,
        meta_description_en: None,
        excerpt: Some("An excerpt".to_string()),
        excerpt_en: None,
        content_markdown: String::new(),
        content_markdown_en: None,
        content_html: String::new(),
        content_html_en: None,
        featured_image: Some("https://img/x.png".to_string()),
        author_name: String::new(),
        category: "news".to_string(),
        tags: None,
        sources: Some(vec![
            SourceValue::Object { url: Some("https://a.org".to_string()) },
            SourceValue::Text("https://b.org".to_string()),
            SourceValue::Other,
            SourceValue::Object { url: None },
        ]),
        source_url: None,
        source_name: Some("Wire".to_string()),
        status: "published".to_string(),
        published_at: Some(0),
        reading_time_minutes: 1,
        view_count: 0,
        is_featured: 0,
        created_at: 0,
        updated_at: 86400,
    }
}

#[test]
fn cache_headers_are_fixed() {
    assert_eq!(public_cache_header(), ("Cache-Control", "public, max-age=14400, s-maxage=86400, stale-while-revalidate=3600"));
    assert_eq!(static_cache_header(), ("Cache-Control", "public, max-age=31536000, immutable"));
    assert_eq!(no_cache_header(), ("Cache-Control", "no-store, no-cache, must-revalidate, private"));
}

#[test]
fn security_headers_list() {
    let h = security_headers();
    assert_eq!(h.len(), 5);
    assert_eq!(h[0], ("X-Content-Type-Options", "nosniff"));
    assert_eq!(h[1], ("X-Frame-Options", "SAMEORIGIN"));
    assert!(h[4].1.starts_with("default-src 'self'; script-src 'self' https://challenges.cloudflare.com; style-src"));
    assert!(h[4].1.ends_with("form-action 'self' https://accounts.google.com https://github.com"));
}

#[test]
fn reading_time_rounds_up_with_minimum_one() {
    assert_eq!(calculate_reading_time(""), 1);
    assert_eq!(calculate_reading_time("   \n\t "), 1);
    let words200 = vec!["w"; 200].join(" ");
    assert_eq!(calculate_reading_time(&words200), 1);
    let words201 = vec!["w"; 201].join("\n");
    assert_eq!(calculate_reading_time(&words201), 2);
    let words401 = vec!["kata"; 401].join("  ");
    assert_eq!(calculate_reading_time(&words401), 3);
}

#[test]
fn first_paragraph_skips_headings_images_links() {
    let md = "# Title\r\n\n![img](x.png)\n[link](y)\n   Hello world  \r\nSecond";
    assert_eq!(extract_first_paragraph(md), "Hello world");
    assert_eq!(extract_first_paragraph("# only\n\n"), "");
    assert_eq!(extract_first_paragraph(""), "");
}

#[test]
fn markdown_renders_with_extensions() {
    assert_eq!(render_markdown("**hi**"), "<p><strong>hi</strong></p>\n");
    let html = render_markdown("~~gone~~");
    assert!(html.contains("<del>gone</del>"));
    let raw = render_markdown("<script>alert(1)</script>");
    assert!(!raw.contains("<script>"));
}

#[test]
fn sanitizer_keeps_only_allowed_tags() {
    let out = sanitize_html("<script>x</script><b>y</b><a href=\"http://a\">l</a>");
    assert_eq!(out, "y<a href=\"http://a\" rel=\"nofollow\">l</a>");
    assert_eq!(sanitize_html("<p>ok</p>"), "<p>ok</p>");
}

#[test]
fn canonical_and_hreflang() {
    assert_eq!(generate_canonical("https://x/blog/a"), "<link rel=\"canonical\" href=\"https://x/blog/a\" />");
    assert_eq!(
        generate_hreflang_tags("a", None, "https://x"),
        "<link rel=\"alternate\" hreflang=\"id\" href=\"https://x/blog/a\" />\n<link rel=\"alternate\" hreflang=\"x-default\" href=\"https://x/blog/a\" />"
    );
    assert_eq!(
        generate_hreflang_tags("a", Some("b"), "https://x"),
        "<link rel=\"alternate\" hreflang=\"id\" href=\"https://x/blog/a\" />\n<link rel=\"alternate\" hreflang=\"en\" href=\"https://x/blog/en/b\" />\n<link rel=\"alternate\" hreflang=\"x-default\" href=\"https://x/blog/a\" />"
    );
}

#[test]
fn og_tags_escape_quotes() {
    let t = generate_og_tags("A \"q\"", "d", Some("i.png"), "u", "id_ID");
    assert_eq!(
        t,
        "<meta property=\"og:title\" content=\"A &quot;q&quot;\" />\n<meta property=\"og:description\" content=\"d\" />\n<meta property=\"og:url\" content=\"u\" />\n<meta property=\"og:locale\" content=\"id_ID\" />\n<meta property=\"og:type\" content=\"article\" />\n<meta property=\"og:image\" content=\"i.png\" />"
    );
    assert!(!generate_og_tags("t", "d", None, "u", "en_US").contains("og:image"));
}

#[test]
fn breadcrumb_positions_count_from_one() {
    let items = vec![("Home".to_string(), "https://x".to_string()), ("A \"b\"".to_string(), "https://x/blog".to_string())];
    let ld = generate_json_ld_breadcrumb(&items);
    let expected = "<script type=\"application/ld+json\">\n{\n    \"@context\": \"https://schema.org\",\n    \"@type\": \"BreadcrumbList\",\n    \"itemListElement\": [{\n            \"@type\": \"ListItem\",\n            \"position\": 1,\n            \"name\": \"Home\",\n            \"item\": \"https://x\"\n        },{\n            \"@type\": \"ListItem\",\n            \"position\": 2,\n            \"name\": \"A \\\"b\\\"\",\n            \"item\": \"https://x/blog\"\n        }]\n}\n</script>";
    assert_eq!(ld, expected);
}

#[test]
fn article_json_ld_fields() {
    let p = post();
    let ld = generate_json_ld_article(&p, "https://x", "id");
    assert!(ld.contains("\"headline\": \"Say \\\"hi\\\"\","));
    assert!(ld.contains("\"image\": \"https://img/x.png\","));
    assert!(ld.contains("\"isBasedOn\": [\"https://a.org\",\"https://b.org\"],"));
    assert!(ld.contains("\"datePublished\": \"1970-01-01T00:00:00Z\","));
    assert!(ld.contains("\"dateModified\": \"1970-01-02T00:00:00Z\","));
    assert!(ld.contains("\"name\": \"Wire\""));
    assert!(ld.contains("\"description\": \"An excerpt\","));
    assert!(ld.contains("\"url\": \"https://x/blog/hello\"\n}\n</script>"));
    let en = generate_json_ld_article(&p, "https://x", "en");
    assert!(en.contains("\"url\": \"https://x/blog/en/hello-en\""));
}

#[test]
fn xml_escaping() {
    assert_eq!(escape_xml("a<b>&\"c'"), "a&lt;b&gt;&amp;&quot;c&apos;");
    assert_eq!(escape_xml("&lt;"), "&amp;lt;");
    let (a, b) = ("Tom & <Jerry>", "'quoted' \"text\"");
    assert_eq!(escape_xml(&format!("{}{}", a, b)), format!("{}{}", escape_xml(a), escape_xml(b)));
    let unescaped = escape_xml(b)
        .replace("&lt;", "<")
        .replace("&gt;", ">")
        .replace("&quot;", "\"")
        .replace("&apos;", "'")
        .replace("&amp;", "&");
    assert_eq!(unescaped, b);
}

fn summary() -> PostSummary {
    PostSummary {
        id: 1,
        slug: "s".to_string(),
        slug_en: None,
        title: "T & U".to_string(),
        title_en: Some("E".to_string()),
        excerpt: Some("<x>".to_string()),
        excerpt_en: None,
        featured_image: None,
        category: "c".to_string(),
        published_at: Some(0),
        reading_time_minutes: 1,
        view_count: 0,
        author_name: "Ann".to_string(),
    }
}

#[test]
fn rss_feed_items() {
    let feed = render_rss(&vec![summary()], "id", "https://x", 0);
    assert!(feed.starts_with("<?xml version=\"1.0\" encoding=\"UTF-8\"?>\n<rss version=\"2.0\""));
    assert!(feed.contains("  <title>Blog Jagad Shalawat</title>\n"));
    assert!(feed.contains("  <lastBuildDate>Thu, 01 Jan 1970 00:00:00 GMT</lastBuildDate>\n"));
    assert!(feed.contains("    <title>T &amp; U</title>\n    <description>&lt;x&gt;</description>\n    <link>https://x/blog/s</link>\n"));
    assert!(feed.ends_with("  </item>\n</channel>\n</rss>\n"));
    let en = render_rss(&vec![summary()], "en", "https://x", 0);
    assert!(en.contains("<language>en-us</language>"));
    assert!(en.contains("    <title>E</title>\n    <description>&lt;x&gt;</description>\n    <link>https://x/blog/ar/s</link>"));
}

#[test]
fn sitemap_entries() {
    let entries = vec![
        ("a".to_string(), None, Some(0i64)),
        ("b".to_string(), Some("b-en".to_string()), None),
    ];
    let xml = render_sitemap(&entries, "https://x", 86400);
    assert!(xml.contains("  <url>\n    <loc>https://x/blog/a</loc>\n    <lastmod>1970-01-01</lastmod>\n"));
    assert!(xml.contains("    <loc>https://x/blog/ar/b-en</loc>\n    <lastmod>1970-01-02</lastmod>\n"));
    assert_eq!(xml.matches("<url>").count(), 5);
    assert!(xml.ends_with("</urlset>\n"));
}

#[test]
fn feed_and_sitemap_caching() {
    assert_eq!(feed_cache_key("id"), "blog:feed:id");
    assert_eq!(feed_cache_key("en"), "blog:feed:en");
    assert_eq!(FEED_CACHE_TTL_SECS, 43200);
    assert_eq!(rss_content_type(), "application/rss+xml; charset=utf-8");
    assert_eq!(sitemap_cache_key(), "blog:sitemap");
    assert_eq!(SITEMAP_CACHE_TTL_SECS, 43200);
    assert_eq!(sitemap_content_type(), "application/xml; charset=utf-8");
}
