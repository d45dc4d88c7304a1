//! Cache keys and invalidation plans of the page cache (a Redis store driven
//! by the server).
use vstd::prelude::*;

use crate::text::{decimal, owned, u64_to_string};

verus! {

/// One operation on the cache store.
pub enum CacheOp {
    /// Delete one key.
    Delete(String),
    /// Delete every key matching a glob pattern.
    DeletePattern(String),
}

/// What a cache-aside lookup does next.
pub enum CacheStep {
    /// The cached value is served.
    Serve(String),
    /// The value is computed, stored with the TTL, and served.
    ComputeAndStore,
}

/// `op` deletes exactly the key `k`.
pub open spec fn deletes(op: CacheOp, k: Seq<char>) -> bool {
    op matches CacheOp::Delete(x) && x@ == k
}

/// `op` deletes exactly the keys matching `p`.
pub open spec fn deletes_pattern(op: CacheOp, p: Seq<char>) -> bool {
    op matches CacheOp::DeletePattern(x) && x@ == p
}

/// `ops` invalidates a post: its Indonesian page, its English page (when it
/// has an English slug), every listing, the sitemap and both feeds, in order.
pub open spec fn post_invalidation(slug: Seq<char>, slug_en: Option<Seq<char>>, ops: Seq<CacheOp>) -> bool {
    &&& deletes(ops[0], "blog:page:id:"@ + slug)
    &&& slug_en is None ==> ops.len() == 5
    &&& slug_en matches Some(en) ==> ops.len() == 6 && deletes(ops[1], "blog:page:en:"@ + en)
    &&& deletes_pattern(ops[ops.len() - 4], "blog:listing:*"@)
    &&& deletes(ops[ops.len() - 3], "blog:sitemap"@)
    &&& deletes(ops[ops.len() - 2], "blog:feed:id"@)
    &&& deletes(ops[ops.len() - 1], "blog:feed:en"@)
}

/// The cached Indonesian page of a post.
pub fn post_page_key(slug: &str) -> (r: String)
    ensures
        r@ == "blog:page:id:"@ + slug@,
{
    let mut r = owned("blog:page:id:");
    r.append(slug);
    r
}

/// The cached English page of a post.
pub fn post_page_key_en(slug_en: &str) -> (r: String)
    ensures
        r@ == "blog:page:en:"@ + slug_en@,
{
    let mut r = owned("blog:page:en:");
    r.append(slug_en);
    r
}

/// The cached comments of a post.
pub fn comments_key(post_id: u64) -> (r: String)
    ensures
        r@ == "blog:comments:"@ + decimal(post_id as nat),
{
    let mut r = owned("blog:comments:");
    let id = u64_to_string(post_id);
    r.append(id.as_str());
    r
}

/// The pattern of every cached listing page.
pub fn listing_pattern() -> (r: &'static str)
    ensures
        r@ == "blog:listing:*"@,
{
    "blog:listing:*"
}

/// Invalidating a post: its Indonesian page, its English page (when it has
/// an English slug), every listing page, the sitemap and both feeds.
pub fn invalidate_post(slug: &str, slug_en: Option<&str>) -> (r: Vec<CacheOp>)
    ensures
        post_invalidation(slug@, crate::services::markdown::opt_str_view(slug_en), r@),
{
    let mut r: Vec<CacheOp> = Vec::new();
    r.push(CacheOp::Delete(post_page_key(slug)));
    if let Some(en) = slug_en {
        r.push(CacheOp::Delete(post_page_key_en(en)));
    }
    r.push(CacheOp::DeletePattern(owned(listing_pattern())));
    r.push(CacheOp::Delete(owned("blog:sitemap")));
    r.push(CacheOp::Delete(owned("blog:feed:id")));
    r.push(CacheOp::Delete(owned("blog:feed:en")));
    r
}

/// Invalidating every listing page.
pub fn invalidate_all_listings() -> (r: CacheOp)
    ensures
        deletes_pattern(r, "blog:listing:*"@),
{
    CacheOp::DeletePattern(owned(listing_pattern()))
}

/// Invalidating the cached comments of a post.
pub fn invalidate_comments(post_id: u64) -> (r: CacheOp)
    ensures
        deletes(r, "blog:comments:"@ + decimal(post_id as nat)),
{
    CacheOp::Delete(comments_key(post_id))
}

/// The keys matched by a pattern are deleted only when there are some.
pub fn delete_matched(keys: &Vec<String>) -> (r: bool)
    ensures
        r == (keys@.len() > 0),
{
    keys.len() > 0
}

/// Cache-aside: serve the cached value when there is one, else compute it.
pub fn get_or_set(cached: Option<String>) -> (r: CacheStep)
    ensures
        cached matches Some(v) ==> (r matches CacheStep::Serve(x) && x == v),
        cached is None ==> r is ComputeAndStore,
{
    match cached {
        Some(v) => CacheStep::Serve(v),
        None => CacheStep::ComputeAndStore,
    }
}

/// Law: invalidating a post always drops its page, the listings, the
/// sitemap and both feeds, which may show it.
pub proof fn law_post_invalidation_covers_listings(slug: Seq<char>, slug_en: Option<Seq<char>>, ops: Seq<CacheOp>)
    requires
        post_invalidation(slug, slug_en, ops),
    ensures
        exists|i: int| 0 <= i < ops.len() && deletes(#[trigger] ops[i], "blog:page:id:"@ + slug),
        exists|i: int| 0 <= i < ops.len() && deletes_pattern(#[trigger] ops[i], "blog:listing:*"@),
        exists|i: int| 0 <= i < ops.len() && deletes(#[trigger] ops[i], "blog:sitemap"@),
        exists|i: int| 0 <= i < ops.len() && deletes(#[trigger] ops[i], "blog:feed:id"@),
        exists|i: int| 0 <= i < ops.len() && deletes(#[trigger] ops[i], "blog:feed:en"@),
{
    assert(ops.len() >= 5);
    assert(deletes(ops[0], "blog:page:id:"@ + slug));
    assert(deletes_pattern(ops[ops.len() - 4], "blog:listing:*"@));
    assert(deletes(ops[ops.len() - 3], "blog:sitemap"@));
    assert(deletes(ops[ops.len() - 2], "blog:feed:id"@));
    assert(deletes(ops[ops.len() - 1], "blog:feed:en"@));
}

} // verus!
