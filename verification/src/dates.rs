//! Calendar formatting of Unix timestamps, done by chrono.
use vstd::prelude::*;

use crate::text::opt_view;

verus! {

/// What chrono writes for the UTC time `secs` seconds after the Unix epoch in
/// the format `fmt`; `None` when the time is outside chrono's range.
pub uninterp spec fn chrono_format(secs: i64, fmt: Seq<char>) -> Option<Seq<char>>;

/// The formats the library writes dates in: ISO-8601 (JSON-LD), calendar day
/// (sitemap) and RFC-822 (RSS).
pub open spec fn known_format(fmt: Seq<char>) -> bool {
    fmt == "%Y-%m-%dT%H:%M:%SZ"@ || fmt == "%Y-%m-%d"@ || fmt == "%a, %d %b %Y %H:%M:%S GMT"@
}

/// The formatted date, or the empty text when chrono cannot represent it.
pub open spec fn date_text(secs: i64, fmt: Seq<char>) -> Seq<char> {
    match chrono_format(secs, fmt) {
        Some(s) => s,
        None => Seq::empty(),
    }
}

/// chrono: `DateTime::<Utc>::from_timestamp(secs, 0)` formatted with `fmt`
/// (`None` when `from_timestamp` gives none). The format is one of the
/// library's well-formed ones, since chrono's `to_string` panics on a
/// malformed format. The contract names chrono's output; it states nothing
/// of its content.
#[verifier::external_body]
pub(crate) fn format_timestamp(secs: i64, fmt: &str) -> (r: Option<String>)
    requires
        known_format(fmt@),
    ensures
        opt_view(r) == chrono_format(secs, fmt@),
{
    match chrono::DateTime::from_timestamp(secs, 0) {
        Some(d) => Some(d.format(fmt).to_string()),
        None => None,
    }
}

/// The date text of `secs` in `fmt` (empty when out of range).
pub fn format_date(secs: i64, fmt: &str) -> (r: String)
    requires
        known_format(fmt@),
    ensures
        r@ == date_text(secs, fmt@),
{
    match format_timestamp(secs, fmt) {
        Some(s) => s,
        None => String::new(),
    }
}

} // verus!
