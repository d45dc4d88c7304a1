//! Verified core of the Jagad Shalawat blog engine: the content filter, the
//! text and markup builders (SEO tags, RSS, sitemap), the comment rules, the
//! access rules and the request decisions of the web handlers.
use vstd::prelude::*;

pub mod config;
pub mod dates;
pub mod error;
pub mod middleware;
pub mod models;
pub mod routes;
pub mod services;
pub mod text;
