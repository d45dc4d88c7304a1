//! `Cache-Control` header values for the kinds of responses.
use vstd::prelude::*;

verus! {

/// Cache-Control for public content: browsers keep it 4 hours, the CDN 24
/// hours, and a stale copy may be served for an hour while it is refreshed.
pub fn public_cache_header() -> (r: (&'static str, &'static str))
    ensures
        r.0@ == "Cache-Control"@,
        r.1@ == "public, max-age=14400, s-maxage=86400, stale-while-revalidate=3600"@,
{
    ("Cache-Control", "public, max-age=14400, s-maxage=86400, stale-while-revalidate=3600")
}

/// Cache-Control for static assets (CSS, JS, images): a year, immutable,
/// since their file names are versioned.
pub fn static_cache_header() -> (r: (&'static str, &'static str))
    ensures
        r.0@ == "Cache-Control"@,
        r.1@ == "public, max-age=31536000, immutable"@,
{
    ("Cache-Control", "public, max-age=31536000, immutable")
}

/// Cache-Control for admin pages: never cached.
pub fn no_cache_header() -> (r: (&'static str, &'static str))
    ensures
        r.0@ == "Cache-Control"@,
        r.1@ == "no-store, no-cache, must-revalidate, private"@,
{
    ("Cache-Control", "no-store, no-cache, must-revalidate, private")
}

} // verus!
