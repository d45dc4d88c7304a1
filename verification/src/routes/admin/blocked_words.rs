//! Blocked-word management in the admin area.
use vstd::prelude::*;

verus! {

/// The form adding a blocked word.
pub struct BlockedWordForm {
    pub word: String,
    pub category: String,
    pub is_regex: Option<bool>,
}

/// Whether the new word is a pattern (default no).
pub fn regex_flag(form: &BlockedWordForm) -> (r: bool)
    ensures
        r == (match form.is_regex {
            Some(b) => b,
            None => false,
        }),
{
    match form.is_regex {
        Some(b) => b,
        None => false,
    }
}

/// Where blocked-word management returns.
pub fn blocked_words_location() -> (r: &'static str)
    ensures
        r@ == "/blog/admin/blocked-words"@,
{
    "/blog/admin/blocked-words"
}

} // verus!
