pub mod auth;
pub mod cache_headers;
pub mod security;
