//! The public English blog pages: paging, cache keys, reserved paths and the
//! page metadata.
use vstd::prelude::*;

pub use crate::routes::blog::{cache_control_public, capitalize_words};

use crate::error::AppError;
use crate::models::post::BlogPost;
use crate::routes::blog::{title_case, CategoryPageMeta, PostPageMeta};
use crate::services::markdown::opt_str_view;
use crate::services::seo::{
    generate_hreflang_tags, generate_json_ld_article, generate_json_ld_breadcrumb, generate_og_tags,
    hreflang_tags, json_ld_article, json_ld_breadcrumb, og_tags,
};
use crate::text::{eq_str, i64_to_string, opt_view, or_default, owned, replace_char, replace_char_seq, signed_decimal};

verus! {

/// The page query of the English listing (`?page=`).
pub struct PaginationQuery {
    pub page: Option<i64>,
}

/// The requested page, at least 1 (default 1).
pub fn current_page(query: &PaginationQuery) -> (r: i64)
    ensures
        r == (match query.page {
            Some(p) => if p < 1 { 1 } else { p },
            None => 1,
        }),
        r >= 1,
{
    match query.page {
        Some(p) => if p < 1 { 1 } else { p },
        None => 1,
    }
}

/// The cache key of an English listing page.
pub fn listing_cache_key(page: i64) -> (r: String)
    ensures
        r@ == "blog:listing:en:page:"@ + signed_decimal(page as int),
{
    let mut r = owned("blog:listing:en:page:");
    let p = i64_to_string(page);
    r.append(p.as_str());
    r
}

/// The cache key of an English category listing page.
pub fn category_cache_key(category: &str, page: i64) -> (r: String)
    ensures
        r@ == "blog:listing:en:cat:"@ + category@ + ":page:"@ + signed_decimal(page as int),
{
    let mut r = owned("blog:listing:en:cat:");
    r.append(category);
    r.append(":page:");
    let p = i64_to_string(page);
    r.append(p.as_str());
    r
}

/// The cache key of an English post page.
pub fn page_cache_key(slug_en: &str) -> (r: String)
    ensures
        r@ == "blog:page:en:"@ + slug_en@,
{
    let mut r = owned("blog:page:en:");
    r.append(slug_en);
    r
}

/// The view counter key of an English post page.
pub fn stats_key(slug_en: &str) -> (r: String)
    ensures
        r@ == "blog:stats:slug_en:"@ + slug_en@,
{
    let mut r = owned("blog:stats:slug_en:");
    r.append(slug_en);
    r
}

/// The paths under `/blog/en/` that are not posts.
pub open spec fn reserved_slug(slug: Seq<char>) -> bool {
    slug == "feed.xml"@ || slug == "category"@ || slug == "kategori"@
}

/// An English post path that names another part of the site is not found.
pub fn check_slug(slug_en: &str) -> (r: Result<(), AppError>)
    ensures
        r is Ok <==> !reserved_slug(slug_en@),
        r matches Err(e) ==> (e matches AppError::NotFound(m) && m@ == "Not found"@),
{
    if eq_str(slug_en, "feed.xml") || eq_str(slug_en, "category") || eq_str(slug_en, "kategori") {
        return Err(AppError::NotFound(owned("Not found")));
    }
    Ok(())
}

/// The error of an English slug with no published post.
pub fn post_not_found() -> (r: AppError)
    ensures
        r matches AppError::NotFound(m) && m@ == "Article not found"@,
{
    AppError::NotFound(owned("Article not found"))
}

fn opt_str<'a>(o: &'a Option<String>) -> (r: Option<&'a str>)
    ensures
        opt_str_view(r) == opt_view(*o),
{
    match o {
        Some(s) => Some(s.as_str()),
        None => None,
    }
}

fn opt_text<'a>(o: &'a Option<String>, d: &'a str) -> (r: &'a str)
    ensures
        r@ == or_default(*o, d@),
{
    match o {
        Some(s) => s.as_str(),
        None => d,
    }
}

/// The English title of a post (its Indonesian title when it has none).
pub open spec fn title_en(post: BlogPost) -> Seq<char> {
    or_default(post.title_en, post.title@)
}

/// The English description of a post.
pub open spec fn description_en(post: BlogPost) -> Seq<char> {
    match post.meta_description_en {
        Some(d) => d@,
        None => or_default(post.excerpt_en, ""@),
    }
}

/// The breadcrumb of an English post page.
pub open spec fn post_breadcrumb_holds(items: Seq<(String, String)>, post: BlogPost, base_url: Seq<char>, slug_en: Seq<char>) -> bool {
    &&& items.len() == 3
    &&& items[0].0@ == "Home"@ && items[0].1@ == base_url
    &&& items[1].0@ == "Blog"@ && items[1].1@ == base_url + "/blog/en"@
    &&& items[2].0@ == title_en(post) && items[2].1@ == base_url + "/blog/en/"@ + slug_en
}

/// The metadata of the English page of `post`, requested as `slug_en`.
pub fn post_page_meta(post: &BlogPost, slug_en: &str, base_url: &str) -> (r: PostPageMeta)
    ensures
        r.alternate_lang_url@ == "/blog/"@ + post.slug@,
        r.page_title@ == title_en(*post) + " — Jagad Shalawat Blog"@,
        r.page_description@ == description_en(*post),
        r.canonical_url@ == base_url@ + "/blog/en/"@ + slug_en@,
        r.json_ld@ == json_ld_article(*post, base_url@, "en"@),
        r.og_tags@ == og_tags(title_en(*post), description_en(*post), opt_view(post.featured_image),
            base_url@ + "/blog/en/"@ + slug_en@, "en_US"@),
        r.hreflang_tags@ == hreflang_tags(post.slug@, opt_view(post.slug_en), base_url@),
        exists|items: Seq<(String, String)>| post_breadcrumb_holds(items, *post, base_url@, slug_en@)
            && r.breadcrumb_ld@ == json_ld_breadcrumb(items),
{
    let title = opt_text(&post.title_en, post.title.as_str());
    let description = match &post.meta_description_en {
        Some(d) => d.as_str(),
        None => opt_text(&post.excerpt_en, ""),
    };
    let mut alternate_lang_url = owned("/blog/");
    alternate_lang_url.append(post.slug.as_str());
    let mut page_title = owned(title);
    page_title.append(" — Jagad Shalawat Blog");
    let mut canonical_url = owned(base_url);
    canonical_url.append("/blog/en/");
    canonical_url.append(slug_en);
    let json_ld = generate_json_ld_article(post, base_url, "en");
    let og = generate_og_tags(title, description, opt_str(&post.featured_image), canonical_url.as_str(), "en_US");
    let hreflang = generate_hreflang_tags(post.slug.as_str(), opt_str(&post.slug_en), base_url);
    let mut blog_url = owned(base_url);
    blog_url.append("/blog/en");
    let mut items: Vec<(String, String)> = Vec::new();
    items.push((owned("Home"), owned(base_url)));
    items.push((owned("Blog"), blog_url));
    items.push((owned(title), canonical_url.clone()));
    let breadcrumb_ld = generate_json_ld_breadcrumb(&items);
    assert(post_breadcrumb_holds(items@, *post, base_url@, slug_en@));
    PostPageMeta {
        alternate_lang_url,
        page_title,
        page_description: owned(description),
        canonical_url,
        json_ld,
        og_tags: og,
        hreflang_tags: hreflang,
        breadcrumb_ld,
    }
}

/// The metadata of an English category page.
pub fn category_page_meta(category: &str, base_url: &str) -> (r: CategoryPageMeta)
    ensures
        r.category_title@ == title_case(replace_char_seq(category@, '-', " "@)),
        r.page_title@ == r.category_title@ + " — Jagad Shalawat Blog"@,
        r.page_description@ == "Articles in category "@ + r.category_title@ + " on Jagad Shalawat Blog"@,
        r.alternate_lang_url@ == "/blog/kategori/"@ + category@,
        r.canonical_url@ == base_url@ + "/blog/en/category/"@ + category@,
{
    let spaced = replace_char(category, '-', " ");
    let formatted = capitalize_words(spaced.as_str());
    let mut page_title = formatted.clone();
    page_title.append(" — Jagad Shalawat Blog");
    let mut page_description = owned("Articles in category ");
    page_description.append(formatted.as_str());
    page_description.append(" on Jagad Shalawat Blog");
    let mut alternate_lang_url = owned("/blog/kategori/");
    alternate_lang_url.append(category);
    let mut canonical_url = owned(base_url);
    canonical_url.append("/blog/en/category/");
    canonical_url.append(category);
    CategoryPageMeta { category_title: formatted, page_title, page_description, alternate_lang_url, canonical_url }
}

/// The title of the English listing.
pub open spec fn index_title() -> Seq<char> {
    "Blog — Jagad Shalawat"@
}

/// The description of the English listing.
pub open spec fn index_description() -> Seq<char> {
    "Articles about digital payment technology, sharia-compliant payments, and automated billing solutions."@
}

/// The Open Graph tags of the English listing.
pub fn index_og_tags(base_url: &str) -> (r: String)
    ensures
        r@ == og_tags(index_title(), index_description(), None, base_url@ + "/blog/en"@, "en_US"@),
{
    let mut url = owned(base_url);
    url.append("/blog/en");
    generate_og_tags(
        "Blog — Jagad Shalawat",
        "Articles about digital payment technology, sharia-compliant payments, and automated billing solutions.",
        None,
        url.as_str(),
        "en_US",
    )
}

} // verus!
