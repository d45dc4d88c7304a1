//! The per-IP comment rate limit (counters kept in Redis by the server).
use vstd::prelude::*;

use crate::text::owned;

verus! {

/// A request that brought the counter to `count` is allowed.
pub open spec fn allowed(count: u32, max_requests: u32) -> bool {
    count <= max_requests
}

/// The requests left for a counter at `count` (absent: none made).
pub open spec fn remaining_of(count: Option<u32>, max_requests: u32) -> u32 {
    match count {
        Some(c) => if c >= max_requests { 0 } else { (max_requests - c) as u32 },
        None => max_requests,
    }
}

/// The counter key of an IP address.
pub fn rate_key(ip: &str) -> (r: String)
    ensures
        r@ == "blog:rate:"@ + ip@,
{
    let mut r = owned("blog:rate:");
    r.append(ip);
    r
}

/// The expiry, in seconds, set on a counter for a window of `window_secs`
/// (the window as a signed count, as Redis takes it).
pub fn window_expiry(window_secs: u64) -> (r: i64)
    ensures
        r == window_secs as i64,
{
    window_secs as i64
}

/// A request whose counter has reached `count` is allowed while the count is
/// at most `max_requests`.
pub fn within_limit(count: u32, max_requests: u32) -> (r: bool)
    ensures
        r == allowed(count, max_requests),
{
    count <= max_requests
}

/// The requests left in the window for a counter at `count` (absent: 0).
pub fn remaining(count: Option<u32>, max_requests: u32) -> (r: u32)
    ensures
        r == remaining_of(count, max_requests),
{
    let current = match count {
        Some(c) => c,
        None => 0,
    };
    if current >= max_requests {
        0
    } else {
        max_requests - current
    }
}

/// Law: while requests remain, the next request (which raises the counter
/// by one) is allowed; once none remain, it is refused.
pub proof fn law_remaining_agrees_with_limit(c: u32, max_requests: u32)
    requires
        c < u32::MAX,
    ensures
        remaining_of(Some(c), max_requests) > 0 <==> allowed((c + 1) as u32, max_requests),
{
}

/// The counter after one Redis `INCR`: an absent key counts from zero.
pub open spec fn incremented(c: Option<nat>) -> nat {
    match c {
        Some(x) => x + 1,
        None => 1,
    }
}

/// The counter left by `k` requests from one address, each an `INCR` of its
/// key, starting from an absent key, each within the window of the one
/// before (whose `EXPIRE` restarted the window, so the key never lapses).
pub open spec fn counter_after(k: nat) -> nat
    decreases k,
{
    if k == 0 {
        0
    } else if k == 1 {
        incremented(None)
    } else {
        incremented(Some(counter_after((k - 1) as nat)))
    }
}

/// How many of the first `n` such requests are allowed.
pub open spec fn allowed_requests(n: nat, max_requests: u32) -> nat
    decreases n,
{
    if n == 0 {
        0
    } else {
        allowed_requests((n - 1) as nat, max_requests) + if counter_after(n) <= max_requests { 1nat } else { 0nat }
    }
}

/// Law: over a run of requests in one window, starting from no counter, the
/// k-th request brings the counter to k and is allowed exactly when
/// k ≤ `max_requests`; so of the first n requests, min(n, `max_requests`)
/// are allowed, never more than `max_requests`.
pub proof fn law_requests_in_window(k: nat, max_requests: u32)
    ensures
        counter_after(k) == k,
        1 <= k <= u32::MAX ==> (allowed(k as u32, max_requests) <==> k <= max_requests),
        allowed_requests(k, max_requests) == (if k <= max_requests { k } else { max_requests as nat }),
        allowed_requests(k, max_requests) <= max_requests,
    decreases k,
{
    if k > 0 {
        law_requests_in_window((k - 1) as nat, max_requests);
    }
}

} // verus!
