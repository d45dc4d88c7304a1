//! Security headers added to every response.
use vstd::prelude::*;

verus! {

/// The Content-Security-Policy of the site.
pub open spec fn content_security_policy() -> Seq<char> {
    "default-src 'self'; script-src 'self' https://challenges.cloudflare.com; style-src 'self' 'unsafe-inline'; img-src 'self' https://www.gravatar.com https://storage.googleapis.com https://*.googleusercontent.com https://avatars.githubusercontent.com data:; font-src 'self'; connect-src 'self' https://challenges.cloudflare.com; frame-src https://challenges.cloudflare.com; base-uri 'self'; form-action 'self' https://accounts.google.com https://github.com"@
}

/// The security headers, as (name, value) pairs in the order they are sent.
pub fn security_headers() -> (r: Vec<(&'static str, &'static str)>)
    ensures
        r@.len() == 5,
        r@[0].0@ == "X-Content-Type-Options"@ && r@[0].1@ == "nosniff"@,
        r@[1].0@ == "X-Frame-Options"@ && r@[1].1@ == "SAMEORIGIN"@,
        r@[2].0@ == "Referrer-Policy"@ && r@[2].1@ == "strict-origin-when-cross-origin"@,
        r@[3].0@ == "Permissions-Policy"@
            && r@[3].1@ == "camera=(), microphone=(), geolocation=(), interest-cohort=()"@,
        r@[4].0@ == "Content-Security-Policy"@ && r@[4].1@ == content_security_policy(),
{
    let mut v: Vec<(&'static str, &'static str)> = Vec::new();
    v.push(("X-Content-Type-Options", "nosniff"));
    v.push(("X-Frame-Options", "SAMEORIGIN"));
    v.push(("Referrer-Policy", "strict-origin-when-cross-origin"));
    v.push(("Permissions-Policy", "camera=(), microphone=(), geolocation=(), interest-cohort=()"));
    v.push(("Content-Security-Policy", "default-src 'self'; script-src 'self' https://challenges.cloudflare.com; style-src 'self' 'unsafe-inline'; img-src 'self' https://www.gravatar.com https://storage.googleapis.com https://*.googleusercontent.com https://avatars.githubusercontent.com data:; font-src 'self'; connect-src 'self' https://challenges.cloudflare.com; frame-src https://challenges.cloudflare.com; base-uri 'self'; form-action 'self' https://accounts.google.com https://github.com"));
    v
}

} // verus!
