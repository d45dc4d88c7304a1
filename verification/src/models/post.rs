//! Blog posts: the stored record, the listing summary, the create and update
//! requests, and the paging and merging rules of their queries.
use vstd::prelude::*;

use crate::text::{clone_opt, opt_view};

verus! {

/// An entry of a post's `sources` JSON array: an object (with the text of its
/// `url` member when that is a string), a bare string, or anything else.
#[derive(Debug)]
pub enum SourceValue {
    Object { url: Option<String> },
    Text(String),
    Other,
}

/// A stored blog post. Times are Unix seconds (UTC); `tags` is the stored JSON
/// text; `sources` holds the entries of the stored `sources` value when that is
/// a JSON array (`None` when absent or not an array).
#[derive(Debug)]
pub struct BlogPost {
    pub id: u64,
    pub slug: String,
    pub slug_en: Option<String>,
    pub title: String,
    pub title_en: Option<String>,
    pub meta_description: Option<String>,
    pub meta_description_en: Option<String>,
    pub excerpt: Option<String>,
    pub excerpt_en: Option<String>,
    pub content_markdown: String,
    pub content_markdown_en: Option<String>,
    pub content_html: String,
    pub content_html_en: Option<String>,
    pub featured_image: Option<String>,
    pub author_name: String,
    pub category: String,
    pub tags: Option<String>,
    pub sources: Option<Vec<SourceValue>>,
    pub source_url: Option<String>,
    pub source_name: Option<String>,
    pub status: String,
    pub published_at: Option<i64>,
    pub reading_time_minutes: u8,
    pub view_count: u64,
    pub is_featured: i8,
    pub created_at: i64,
    pub updated_at: i64,
}

/// The lighter record of a post used by listings and feeds.
#[derive(Debug)]
pub struct PostSummary {
    pub id: u64,
    pub slug: String,
    pub slug_en: Option<String>,
    pub title: String,
    pub title_en: Option<String>,
    pub excerpt: Option<String>,
    pub excerpt_en: Option<String>,
    pub featured_image: Option<String>,
    pub category: String,
    pub published_at: Option<i64>,
    pub reading_time_minutes: u8,
    pub view_count: u64,
    pub author_name: String,
}

/// A request to create a post (`tags` as JSON text).
#[derive(Debug)]
pub struct CreatePost {
    pub title: String,
    pub slug: String,
    pub content_markdown: String,
    pub meta_description: Option<String>,
    pub excerpt: Option<String>,
    pub category: String,
    pub tags: Option<String>,
    pub source_url: Option<String>,
    pub source_name: Option<String>,
    pub featured_image: Option<String>,
    pub status: String,
}

/// A partial update of a post: `None` keeps the stored value.
#[derive(Debug)]
pub struct UpdatePost {
    pub title: Option<String>,
    pub slug: Option<String>,
    pub content_markdown: Option<String>,
    pub meta_description: Option<String>,
    pub excerpt: Option<String>,
    pub category: Option<String>,
    pub tags: Option<String>,
    pub source_url: Option<String>,
    pub source_name: Option<String>,
    pub featured_image: Option<String>,
    pub status: Option<String>,
}

/// The values an update writes back to the stored post.
pub struct PostUpdateValues {
    pub title: String,
    pub slug: String,
    pub content_markdown: String,
    pub meta_description: Option<String>,
    pub excerpt: Option<String>,
    pub category: String,
    pub tags: Option<String>,
    pub source_url: Option<String>,
    pub source_name: Option<String>,
    pub featured_image: Option<String>,
    pub status: String,
}

/// `a` if given, else `b` (`Option::or` on views).
pub open spec fn or_opt(a: Option<String>, b: Option<String>) -> Option<Seq<char>> {
    match a {
        Some(s) => Some(s@),
        None => opt_view(b),
    }
}

/// `a` if given, else `b`.
pub open spec fn or_val(a: Option<String>, b: String) -> Seq<char> {
    match a {
        Some(s) => s@,
        None => b@,
    }
}

/// `r` holds the values of `current` with those given in `data` replacing them.
pub open spec fn merged(current: BlogPost, data: UpdatePost, r: PostUpdateValues) -> bool {
    &&& r.title@ == or_val(data.title, current.title)
    &&& r.slug@ == or_val(data.slug, current.slug)
    &&& r.content_markdown@ == or_val(data.content_markdown, current.content_markdown)
    &&& opt_view(r.meta_description) == or_opt(data.meta_description, current.meta_description)
    &&& opt_view(r.excerpt) == or_opt(data.excerpt, current.excerpt)
    &&& r.category@ == or_val(data.category, current.category)
    &&& opt_view(r.tags) == or_opt(data.tags, current.tags)
    &&& opt_view(r.source_url) == or_opt(data.source_url, current.source_url)
    &&& opt_view(r.source_name) == or_opt(data.source_name, current.source_name)
    &&& opt_view(r.featured_image) == or_opt(data.featured_image, current.featured_image)
    &&& r.status@ == or_val(data.status, current.status)
}

fn pick(a: &Option<String>, b: &String) -> (r: String)
    ensures
        r@ == or_val(*a, *b),
{
    match a {
        Some(s) => s.clone(),
        None => b.clone(),
    }
}

fn pick_opt(a: &Option<String>, b: &Option<String>) -> (r: Option<String>)
    ensures
        opt_view(r) == or_opt(*a, *b),
{
    match a {
        Some(s) => Some(s.clone()),
        None => clone_opt(b),
    }
}

impl BlogPost {
    /// The row offset of page `page` (pages count from 1; page 0 reads as 1).
    pub fn listing_offset(page: u32, per_page: u32) -> (r: u32)
        requires
            (if page == 0 { 0 } else { page - 1 }) * per_page <= u32::MAX,
        ensures
            r == (if page == 0 { 0 } else { page - 1 }) * per_page,
    {
        page.saturating_sub(1) * per_page
    }

    /// The stored values after applying `data` to `current`: every field given
    /// in `data` replaces the stored one.
    pub fn merge_update(current: &BlogPost, data: &UpdatePost) -> (r: PostUpdateValues)
        ensures
            merged(*current, *data, r),
    {
        PostUpdateValues {
            title: pick(&data.title, &current.title),
            slug: pick(&data.slug, &current.slug),
            content_markdown: pick(&data.content_markdown, &current.content_markdown),
            meta_description: pick_opt(&data.meta_description, &current.meta_description),
            excerpt: pick_opt(&data.excerpt, &current.excerpt),
            category: pick(&data.category, &current.category),
            tags: pick_opt(&data.tags, &current.tags),
            source_url: pick_opt(&data.source_url, &current.source_url),
            source_name: pick_opt(&data.source_name, &current.source_name),
            featured_image: pick_opt(&data.featured_image, &current.featured_image),
            status: pick(&data.status, &current.status),
        }
    }
}

impl PostSummary {
    /// The row offset of page `page` (pages below 1 read as 1).
    pub fn listing_offset(page: i64, per_page: i64) -> (r: i64)
        requires
            i64::MIN <= (if page < 1 { 0 } else { page - 1 }) * per_page <= i64::MAX,
        ensures
            r == (if page < 1 { 0 } else { page - 1 }) * per_page,
    {
        let p = if page < 1 { 1 } else { page };
        (p - 1) * per_page
    }
}

/// Law: an update that gives no field writes back every stored value unchanged.
pub proof fn law_empty_update_keeps_post(current: BlogPost, data: UpdatePost, r: PostUpdateValues)
    requires
        merged(current, data, r),
        data.title is None && data.slug is None && data.content_markdown is None
            && data.meta_description is None && data.excerpt is None && data.category is None
            && data.tags is None && data.source_url is None && data.source_name is None
            && data.featured_image is None && data.status is None,
    ensures
        r.title@ == current.title@,
        r.slug@ == current.slug@,
        r.content_markdown@ == current.content_markdown@,
        opt_view(r.meta_description) == opt_view(current.meta_description),
        opt_view(r.excerpt) == opt_view(current.excerpt),
        r.category@ == current.category@,
        opt_view(r.tags) == opt_view(current.tags),
        opt_view(r.source_url) == opt_view(current.source_url),
        opt_view(r.source_name) == opt_view(current.source_name),
        opt_view(r.featured_image) == opt_view(current.featured_image),
        r.status@ == current.status@,
{
}

} // verus!
