//! The public Indonesian blog pages: paging, cache keys, reserved paths and
//! the page metadata (titles, descriptions, canonical URLs, SEO tags).
use vstd::prelude::*;

use crate::error::AppError;
use crate::models::post::BlogPost;
use crate::services::markdown::opt_str_view;
use crate::services::seo::{
    generate_hreflang_tags, generate_json_ld_article, generate_json_ld_breadcrumb, generate_og_tags,
    hreflang_tags, json_ld_article, json_ld_breadcrumb, og_tags,
};
use crate::text::{
    blank, char_to_uppercase, eq_str, i64_to_string, is_blank, join, join_seq, opt_view, or_default, owned,
    replace_char, replace_char_seq, signed_decimal, uppercase_char, words, words_of, from_chars_range,
};

verus! {

/// The page query of the Indonesian listing (`?halaman=`).
pub struct PaginationQuery {
    pub halaman: Option<i64>,
}

/// The metadata of a post page.
pub struct PostPageMeta {
    pub alternate_lang_url: String,
    pub page_title: String,
    pub page_description: String,
    pub canonical_url: String,
    pub json_ld: String,
    pub og_tags: String,
    pub hreflang_tags: String,
    pub breadcrumb_ld: String,
}

/// The metadata of a category page.
pub struct CategoryPageMeta {
    pub category_title: String,
    pub page_title: String,
    pub page_description: String,
    pub alternate_lang_url: String,
    pub canonical_url: String,
}

/// Posts per listing page.
pub const POSTS_PER_PAGE: i64 = 12;

/// The word with its first character upper-cased.
pub open spec fn capitalized(w: Seq<char>) -> Seq<char> {
    if w.len() == 0 {
        Seq::empty()
    } else {
        uppercase_char(w[0]) + w.drop_first()
    }
}

/// Title case: the words of `s`, each capitalised, joined by single spaces.
pub open spec fn title_case(s: Seq<char>) -> Seq<char> {
    join_seq(words(s).map_values(|w: Seq<char>| capitalized(w)), " "@)
}

/// The ceiling of `n / d` for `n >= 0`, `d > 0`.
pub open spec fn ceil_div(n: int, d: int) -> int {
    (n + d - 1) / d
}

/// The Cache-Control header of the public blog pages.
pub fn cache_control_public() -> (r: (&'static str, &'static str))
    ensures
        r.0@ == "Cache-Control"@,
        r.1@ == "public, max-age=0, must-revalidate, s-maxage=86400"@,
{
    ("Cache-Control", "public, max-age=0, must-revalidate, s-maxage=86400")
}

/// Capitalises the first character of every word; words are rejoined with
/// single spaces.
pub fn capitalize_words(s: &str) -> (r: String)
    ensures
        r@ == title_case(s@),
{
    let ws = words_of(s);
    let ghost target = words(s@).map_values(|w: Seq<char>| capitalized(w));
    let mut parts: Vec<String> = Vec::new();
    let mut i: usize = 0;
    while i < ws.len()
        invariant
            i <= ws@.len() == words(s@).len(),
            forall|k: int| 0 <= k < ws@.len() ==> (#[trigger] ws@[k])@ == words(s@)[k],
            target == words(s@).map_values(|w: Seq<char>| capitalized(w)),
            parts@.map_values(|p: String| p@) == target.take(i as int),
        decreases ws.len() - i,
    {
        let w = &ws[i];
        let mut part = String::new();
        if w.len() > 0 {
            part = char_to_uppercase(w[0]);
            let rest = from_chars_range(w, 1, w.len());
            part.append(rest.as_str());
            assert(w@.subrange(1, w@.len() as int) =~= w@.drop_first());
        } else {
            assert(capitalized(w@) =~= Seq::<char>::empty());
        }
        let ghost before = parts@;
        parts.push(part);
        assert(parts@.map_values(|p: String| p@) =~= before.map_values(|p: String| p@).push(target[i as int]));
        assert(target.take(i + 1) =~= target.take(i as int).push(target[i as int]));
        i = i + 1;
    }
    assert(target.take(ws@.len() as int) =~= target);
    join(&parts, " ")
}

/// The requested page, at least 1 (default 1).
pub fn current_page(query: &PaginationQuery) -> (r: i64)
    ensures
        r == (match query.halaman {
            Some(p) => if p < 1 { 1 } else { p },
            None => 1,
        }),
        r >= 1,
{
    match query.halaman {
        Some(p) => if p < 1 { 1 } else { p },
        None => 1,
    }
}

/// The number of listing pages for `total` posts (12 per page, rounded up).
/// Counts within 2^53 of zero, where the division is exact.
pub fn total_pages(total: i64) -> (r: i64)
    requires
        -0x20_0000_0000_0000 <= total <= 0x20_0000_0000_0000,
    ensures
        r == ceil_div(total as int, 12),
{
    if total >= 0 {
        (total + 11) / 12
    } else {
        let m: i64 = -total;
        let q: i64 = m / 12;
        assert((11 - m) / 12 == -q) by (nonlinear_arith)
            requires
                m > 0,
                q == m / 12,
        ;
        -q
    }
}

/// The cache key of a listing page.
pub fn listing_cache_key(page: i64) -> (r: String)
    ensures
        r@ == "blog:listing:id:page:"@ + signed_decimal(page as int),
{
    let mut r = owned("blog:listing:id:page:");
    let p = i64_to_string(page);
    r.append(p.as_str());
    r
}

/// The cache key of a category listing page.
pub fn category_cache_key(category: &str, page: i64) -> (r: String)
    ensures
        r@ == "blog:listing:id:cat:"@ + category@ + ":page:"@ + signed_decimal(page as int),
{
    let mut r = owned("blog:listing:id:cat:");
    r.append(category);
    r.append(":page:");
    let p = i64_to_string(page);
    r.append(p.as_str());
    r
}

/// The cache key of a post page.
pub fn page_cache_key(slug: &str) -> (r: String)
    ensures
        r@ == "blog:page:id:"@ + slug@,
{
    let mut r = owned("blog:page:id:");
    r.append(slug);
    r
}

/// The view counter key of a post.
pub fn stats_key(slug: &str) -> (r: String)
    ensures
        r@ == "blog:stats:slug:"@ + slug@,
{
    let mut r = owned("blog:stats:slug:");
    r.append(slug);
    r
}

/// The paths under `/blog/` that are not posts.
pub open spec fn reserved_slug(slug: Seq<char>) -> bool {
    slug == "admin"@ || slug == "auth"@ || slug == "static"@ || slug == "sitemap.xml"@ || slug == "feed.xml"@
        || slug == "en"@ || slug == "kategori"@
}

/// A post path that names another part of the site is not found.
pub fn check_slug(slug: &str) -> (r: Result<(), AppError>)
    ensures
        r is Ok <==> !reserved_slug(slug@),
        r matches Err(e) ==> (e matches AppError::NotFound(m) && m@ == "Halaman tidak ditemukan"@),
{
    if eq_str(slug, "admin") || eq_str(slug, "auth") || eq_str(slug, "static") || eq_str(slug, "sitemap.xml")
        || eq_str(slug, "feed.xml") || eq_str(slug, "en") || eq_str(slug, "kategori")
    {
        return Err(AppError::NotFound(owned("Halaman tidak ditemukan")));
    }
    Ok(())
}

/// The error of a slug with no published post.
pub fn post_not_found() -> (r: AppError)
    ensures
        r matches AppError::NotFound(m) && m@ == "Artikel tidak ditemukan"@,
{
    AppError::NotFound(owned("Artikel tidak ditemukan"))
}

/// The link to the English version of a post: its English page when it has
/// a non-blank English slug, else the English blog.
pub fn alternate_lang_url(slug_en: &Option<String>) -> (r: String)
    ensures
        r@ == (match slug_en {
            Some(s) => if is_blank(s@) { "/blog/en"@ } else { "/blog/en/"@ + s@ },
            None => "/blog/en"@,
        }),
{
    match slug_en {
        Some(s) => {
            if blank(s.as_str()) {
                owned("/blog/en")
            } else {
                let mut r = owned("/blog/en/");
                r.append(s.as_str());
                r
            }
        },
        None => owned("/blog/en"),
    }
}

fn opt_str<'a>(o: &'a Option<String>) -> (r: Option<&'a str>)
    ensures
        opt_str_view(r) == opt_view(*o),
{
    match o {
        Some(s) => Some(s.as_str()),
        None => None,
    }
}

fn opt_text<'a>(o: &'a Option<String>, d: &'a str) -> (r: &'a str)
    ensures
        r@ == or_default(*o, d@),
{
    match o {
        Some(s) => s.as_str(),
        None => d,
    }
}

/// The breadcrumb of an Indonesian post page.
pub open spec fn post_breadcrumb_holds(items: Seq<(String, String)>, post: BlogPost, base_url: Seq<char>) -> bool {
    &&& items.len() == 3
    &&& items[0].0@ == "Beranda"@ && items[0].1@ == base_url
    &&& items[1].0@ == "Blog"@ && items[1].1@ == base_url + "/blog"@
    &&& items[2].0@ == post.title@ && items[2].1@ == base_url + "/blog/"@ + post.slug@
}

/// The metadata of the Indonesian page of `post`.
pub fn post_page_meta(post: &BlogPost, base_url: &str) -> (r: PostPageMeta)
    ensures
        r.alternate_lang_url@ == (match post.slug_en {
            Some(s) => if is_blank(s@) { "/blog/en"@ } else { "/blog/en/"@ + s@ },
            None => "/blog/en"@,
        }),
        r.page_title@ == post.title@ + " — Blog Tagih Otomatis"@,
        r.page_description@ == or_default(post.meta_description, or_default(post.excerpt, ""@)),
        r.canonical_url@ == base_url@ + "/blog/"@ + post.slug@,
        r.json_ld@ == json_ld_article(*post, base_url@, "id"@),
        r.og_tags@ == og_tags(post.title@, or_default(post.meta_description, ""@), opt_view(post.featured_image),
            base_url@ + "/blog/"@ + post.slug@, "id_ID"@),
        r.hreflang_tags@ == hreflang_tags(post.slug@, opt_view(post.slug_en), base_url@),
        exists|items: Seq<(String, String)>| post_breadcrumb_holds(items, *post, base_url@)
            && r.breadcrumb_ld@ == json_ld_breadcrumb(items),
{
    let mut page_title = post.title.clone();
    page_title.append(" — Blog Tagih Otomatis");
    let page_description = owned(opt_text(&post.meta_description, opt_text(&post.excerpt, "")));
    let mut canonical_url = owned(base_url);
    canonical_url.append("/blog/");
    canonical_url.append(post.slug.as_str());
    let json_ld = generate_json_ld_article(post, base_url, "id");
    let og = generate_og_tags(
        post.title.as_str(),
        opt_text(&post.meta_description, ""),
        opt_str(&post.featured_image),
        canonical_url.as_str(),
        "id_ID",
    );
    let hreflang = generate_hreflang_tags(post.slug.as_str(), opt_str(&post.slug_en), base_url);
    let mut blog_url = owned(base_url);
    blog_url.append("/blog");
    let mut items: Vec<(String, String)> = Vec::new();
    items.push((owned("Beranda"), owned(base_url)));
    items.push((owned("Blog"), blog_url));
    items.push((post.title.clone(), canonical_url.clone()));
    let breadcrumb_ld = generate_json_ld_breadcrumb(&items);
    assert(post_breadcrumb_holds(items@, *post, base_url@));
    PostPageMeta {
        alternate_lang_url: alternate_lang_url(&post.slug_en),
        page_title,
        page_description,
        canonical_url,
        json_ld,
        og_tags: og,
        hreflang_tags: hreflang,
        breadcrumb_ld,
    }
}

/// The metadata of an Indonesian category page (`-` in the category name
/// read as spaces, words capitalised).
pub fn category_page_meta(category: &str, base_url: &str) -> (r: CategoryPageMeta)
    ensures
        r.category_title@ == title_case(replace_char_seq(category@, '-', " "@)),
        r.page_title@ == r.category_title@ + " — Blog Tagih Otomatis"@,
        r.page_description@ == "Artikel kategori "@ + r.category_title@ + " di Blog Tagih Otomatis"@,
        r.alternate_lang_url@ == "/blog/en/category/"@ + category@,
        r.canonical_url@ == base_url@ + "/blog/kategori/"@ + category@,
{
    let spaced = replace_char(category, '-', " ");
    let formatted = capitalize_words(spaced.as_str());
    let mut page_title = formatted.clone();
    page_title.append(" — Blog Tagih Otomatis");
    let mut page_description = owned("Artikel kategori ");
    page_description.append(formatted.as_str());
    page_description.append(" di Blog Tagih Otomatis");
    let mut alternate_lang_url = owned("/blog/en/category/");
    alternate_lang_url.append(category);
    let mut canonical_url = owned(base_url);
    canonical_url.append("/blog/kategori/");
    canonical_url.append(category);
    CategoryPageMeta { category_title: formatted, page_title, page_description, alternate_lang_url, canonical_url }
}

/// How a freshly rendered post page is answered.
pub struct PageResponse {
    /// The `X-Cache` header.
    pub x_cache: &'static str,
    /// The `Cache-Control` header.
    pub cache_control: &'static str,
    /// Whether the page is stored in the page cache.
    pub store: bool,
}

/// Signed-in visitors (who see their own profile in the comment form) are
/// never served from or stored in the page cache.
pub fn may_serve_cached(logged_in: bool) -> (r: bool)
    ensures
        r == !logged_in,
{
    !logged_in
}

/// The answer for a freshly rendered post page: private and uncached for a
/// signed-in visitor; public and stored for 24 hours otherwise.
pub fn fresh_page_response(logged_in: bool) -> (r: PageResponse)
    ensures
        logged_in ==> r.x_cache@ == "BYPASS"@ && r.cache_control@ == "private, no-cache, no-store, must-revalidate"@ && !r.store,
        !logged_in ==> r.x_cache@ == "MISS"@ && r.cache_control@ == "public, max-age=0, must-revalidate, s-maxage=86400"@ && r.store,
{
    if logged_in {
        PageResponse { x_cache: "BYPASS", cache_control: "private, no-cache, no-store, must-revalidate", store: false }
    } else {
        PageResponse { x_cache: "MISS", cache_control: cache_control_public().1, store: true }
    }
}

/// The `X-Cache` header of an answer: `HIT` when it came from the cache,
/// `MISS` when it was rendered and stored.
pub fn x_cache(hit: bool) -> (r: &'static str)
    ensures
        hit ==> r@ == "HIT"@,
        !hit ==> r@ == "MISS"@,
{
    if hit { "HIT" } else { "MISS" }
}

/// The answer for a page served from the page cache: public, and not stored again.
pub fn cached_page_response() -> (r: PageResponse)
    ensures
        r.x_cache@ == "HIT"@,
        r.cache_control@ == "public, max-age=0, must-revalidate, s-maxage=86400"@,
        !r.store,
{
    PageResponse { x_cache: x_cache(true), cache_control: cache_control_public().1, store: false }
}

/// How long a rendered page stays in the page cache, in seconds (24 hours).
pub const PAGE_CACHE_TTL_SECS: u64 = 86400;

/// The title of the Indonesian listing.
pub open spec fn index_title() -> Seq<char> {
    "Blog — Tagih Otomatis"@
}

/// The description of the Indonesian listing.
pub open spec fn index_description() -> Seq<char> {
    "Artikel seputar teknologi pembayaran digital, pembayaran syariah, dan kemudahan penagihan otomatis."@
}

/// The Open Graph tags of the Indonesian listing.
pub fn index_og_tags(base_url: &str) -> (r: String)
    ensures
        r@ == og_tags(index_title(), index_description(), None, base_url@ + "/blog"@, "id_ID"@),
{
    let mut url = owned(base_url);
    url.append("/blog");
    generate_og_tags(
        "Blog — Tagih Otomatis",
        "Artikel seputar teknologi pembayaran digital, pembayaran syariah, dan kemudahan penagihan otomatis.",
        None,
        url.as_str(),
        "id_ID",
    )
}

} // verus!
