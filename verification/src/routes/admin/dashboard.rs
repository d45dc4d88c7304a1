//! The admin dashboard.
use vstd::prelude::*;

verus! {

/// The figures of the dashboard.
pub struct DashboardStats {
    pub total_published_posts: i64,
    pub total_draft_posts: i64,
    pub total_pending_comments: i64,
    pub total_views: i64,
}

/// The most recent posts the dashboard lists.
pub const RECENT_POSTS_LIMIT: u32 = 10;

/// Clearing the cache drops every key of the blog.
pub fn clear_cache_pattern() -> (r: &'static str)
    ensures
        r@ == "blog:*"@,
{
    "blog:*"
}

/// Where the cache action returns.
pub fn dashboard_location() -> (r: &'static str)
    ensures
        r@ == "/blog/admin/dashboard"@,
{
    "/blog/admin/dashboard"
}

} // verus!
