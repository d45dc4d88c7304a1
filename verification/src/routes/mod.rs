pub mod admin;
pub mod auth;
pub mod blog;
pub mod blog_en;
pub mod comment;
pub mod feed;
pub mod sitemap;
