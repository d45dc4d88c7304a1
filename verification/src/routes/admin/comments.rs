//! Comment moderation in the admin area.
use vstd::prelude::*;

use crate::error::AppError;
use crate::services::cache::{deletes, invalidate_comments, invalidate_post, post_invalidation, CacheOp};
use crate::services::markdown::opt_str_view;
use crate::text::{decimal, eq_str, opt_view, owned};

verus! {

/// The query of the moderation list.
pub struct CommentQuery {
    pub status: Option<String>,
}

/// The rejection form.
pub struct RejectForm {
    pub reason: Option<String>,
}

/// The most comments the moderation list shows.
pub const MODERATION_LIST_LIMIT: u32 = 100;

/// The status filter of the moderation list: `None` for all comments (the default).
pub fn status_filter(query: &CommentQuery) -> (r: Option<String>)
    ensures
        match query.status {
            Some(s) => if s@ == "all"@ { r is None } else { opt_view(r) == Some(s@) },
            None => r is None,
        },
{
    match &query.status {
        Some(s) => if eq_str(s.as_str(), "all") { None } else { Some(s.clone()) },
        None => None,
    }
}

/// The error of a comment id with no comment.
pub fn comment_not_found() -> (r: AppError)
    ensures
        r matches AppError::NotFound(m) && m@ == "Komentar tidak ditemukan"@,
{
    AppError::NotFound(owned("Komentar tidak ditemukan"))
}

/// The cache operations after approving or rejecting a comment of post
/// `post_id`: its cached comments, and the post's pages when the post exists
/// (`slug` is `None` when it does not).
pub fn moderation_invalidations(post_id: u64, slug: Option<&str>, slug_en: Option<&str>) -> (r: Vec<CacheOp>)
    ensures
        r@.len() >= 1,
        deletes(r@[0], "blog:comments:"@ + decimal(post_id as nat)),
        slug is None ==> r@.len() == 1,
        slug matches Some(s) ==> post_invalidation(s@, opt_str_view(slug_en), r@.skip(1)),
{
    let mut ops: Vec<CacheOp> = Vec::new();
    ops.push(invalidate_comments(post_id));
    if let Some(s) = slug {
        let mut more = invalidate_post(s, slug_en);
        let ghost rest = more@;
        ops.append(&mut more);
        assert(ops@.skip(1) =~= rest);
    }
    ops
}

/// Where moderation returns.
pub fn comments_location() -> (r: &'static str)
    ensures
        r@ == "/blog/admin/comments"@,
{
    "/blog/admin/comments"
}

} // verus!
