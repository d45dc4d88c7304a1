pub mod cache;
pub mod content_filter;
pub mod email;
pub mod markdown;
pub mod rate_limiter;
pub mod seo;
