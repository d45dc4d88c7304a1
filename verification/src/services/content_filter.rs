//! The comment content filter: URL-spam detection and blocked words, with
//! normalisation of common evasions ("b.a.d", "b4d", "b@d").
use vstd::prelude::*;

use crate::text::{chars_contain, count_matches, count_occurrences, has_substring, lowercase, owned, push_char, to_chars, to_lowercase};

verus! {

/// A blocked word (stored lower-case) and the category it belongs to.
#[derive(Debug, Clone)]
pub struct BlockedWord {
    pub word: String,
    pub category: String,
    pub is_regex: bool,
}

/// A row of the blocked-word table as the database returns it.
pub struct BlockedWordRow {
    pub word: String,
    pub category: String,
    pub is_regex: i8,
}

/// The verdict of the filter on a text.
#[derive(Debug)]
pub enum FilterResult {
    Clean,
    Blocked { category: String, matched_word: String },
    Suspicious { reason: String },
}

/// The filter, holding the blocked words in the order they were loaded.
pub struct ContentFilter {
    blocked_words: Vec<BlockedWord>,
}

/// What the normalisation does with one character: separators are dropped,
/// look-alike digits and symbols become the letters they imitate.
pub open spec fn evasion_map(c: char) -> Option<char> {
    if c == '.' || c == '*' || c == '-' || c == '_' || c == ' ' {
        None
    } else if c == '0' {
        Some('o')
    } else if c == '1' {
        Some('i')
    } else if c == '3' {
        Some('e')
    } else if c == '4' {
        Some('a')
    } else if c == '5' {
        Some('s')
    } else if c == '7' {
        Some('t')
    } else if c == '@' {
        Some('a')
    } else if c == '$' {
        Some('s')
    } else {
        Some(c)
    }
}

/// The text with every character passed through `evasion_map`.
pub open spec fn normalize_seq(s: Seq<char>) -> Seq<char>
    decreases s.len(),
{
    if s.len() == 0 {
        seq![]
    } else {
        match evasion_map(s.last()) {
            Some(d) => normalize_seq(s.drop_last()).push(d),
            None => normalize_seq(s.drop_last()),
        }
    }
}

/// The number of links in a (lower-cased) text.
pub open spec fn url_count(lower: Seq<char>) -> nat {
    count_matches(lower, "http://"@) + count_matches(lower, "https://"@)
}

/// A blocked word is found in the normalised or in the lower-cased text.
pub open spec fn hits(w: Seq<char>, norm: Seq<char>, lower: Seq<char>) -> bool {
    has_substring(norm, w) || has_substring(lower, w)
}

/// The text holds more than two links: the filter holds it for review.
pub open spec fn flagged(text: Seq<char>) -> bool {
    url_count(lowercase(text)) > 2
}

/// The text is not flagged and holds a blocked word: the filter blocks it.
pub open spec fn blocked(words: Seq<BlockedWord>, text: Seq<char>) -> bool {
    let lower = lowercase(text);
    &&& !flagged(text)
    &&& exists|i: int| 0 <= i < words.len() && hits(#[trigger] words[i].word@, normalize_seq(lower), lower)
}

/// The verdict on `text` for the blocked words `words`: more than two links
/// make it suspicious; otherwise the first blocked word found blocks it;
/// otherwise it is clean.
pub open spec fn verdict_holds(words: Seq<BlockedWord>, text: Seq<char>, r: FilterResult) -> bool {
    let lower = lowercase(text);
    let norm = normalize_seq(lower);
    match r {
        FilterResult::Suspicious { reason } => url_count(lower) > 2 && reason@ == "Too many URLs"@,
        FilterResult::Blocked { category, matched_word } => {
            &&& url_count(lower) <= 2
            &&& exists|i: int|
                0 <= i < words.len() && hits(#[trigger] words[i].word@, norm, lower)
                    && (forall|j: int| 0 <= j < i ==> !hits(#[trigger] words[j].word@, norm, lower))
                    && category@ == words[i].category@ && matched_word@ == words[i].word@
        },
        FilterResult::Clean => {
            &&& url_count(lower) <= 2
            &&& forall|i: int| 0 <= i < words.len() ==> !hits(#[trigger] words[i].word@, norm, lower)
        },
    }
}

/// A loaded word: the row's word lower-cased, its category, and whether it is
/// marked as a pattern.
pub open spec fn loaded_from(w: BlockedWord, row: BlockedWordRow) -> bool {
    &&& w.word@ == lowercase(row.word@)
    &&& w.category@ == row.category@
    &&& w.is_regex == (row.is_regex != 0)
}

proof fn lemma_normalize_fixed(s: Seq<char>)
    ensures
        forall|k: int| 0 <= k < normalize_seq(s).len() ==> evasion_map(#[trigger] normalize_seq(s)[k]) == Some(normalize_seq(s)[k]),
    decreases s.len(),
{
    if s.len() > 0 {
        lemma_normalize_fixed(s.drop_last());
    }
}

proof fn lemma_normalize_of_fixed(s: Seq<char>)
    requires
        forall|k: int| 0 <= k < s.len() ==> evasion_map(#[trigger] s[k]) == Some(s[k]),
    ensures
        normalize_seq(s) == s,
    decreases s.len(),
{
    if s.len() > 0 {
        let p = s.drop_last();
        assert forall|k: int| 0 <= k < p.len() implies evasion_map(#[trigger] p[k]) == Some(p[k]) by {
            assert(p[k] == s[k]);
        }
        lemma_normalize_of_fixed(p);
        assert(evasion_map(s.last()) == Some(s[s.len() - 1]));
        assert(p.push(s.last()) =~= s);
    }
}

/// Law: normalising twice is normalising once; a normalised text holds no
/// separator and no look-alike character.
pub proof fn law_normalize_idempotent(s: Seq<char>)
    ensures
        normalize_seq(normalize_seq(s)) == normalize_seq(s),
        forall|k: int| 0 <= k < normalize_seq(s).len() ==> evasion_map(#[trigger] normalize_seq(s)[k]) == Some(normalize_seq(s)[k]),
{
    lemma_normalize_fixed(s);
    lemma_normalize_of_fixed(normalize_seq(s));
}

/// Law: a text in which a blocked word occurs (as written, in lower case) and
/// which holds at most two links is never judged clean.
pub proof fn law_blocked_word_never_clean(words: Seq<BlockedWord>, text: Seq<char>, i: int, r: FilterResult)
    requires
        0 <= i < words.len(),
        has_substring(lowercase(text), words[i].word@),
        verdict_holds(words, text, r),
    ensures
        !(r is Clean),
{
    let lower = lowercase(text);
    let norm = normalize_seq(lower);
    assert(hits(words[i].word@, norm, lower));
}

impl ContentFilter {
    /// The blocked words, in load order.
    pub closed spec fn words(&self) -> Seq<BlockedWord> {
        self.blocked_words@
    }

    /// A filter loaded from the rows of the blocked-word table.
    pub fn new(rows: &Vec<BlockedWordRow>) -> (r: ContentFilter)
        ensures
            r.words().len() == rows@.len(),
            forall|i: int| 0 <= i < rows@.len() ==> loaded_from(#[trigger] r.words()[i], rows@[i]),
    {
        let mut f = ContentFilter { blocked_words: Vec::new() };
        f.reload(rows);
        f
    }

    /// Replaces the blocked words by those of `rows`.
    pub fn reload(&mut self, rows: &Vec<BlockedWordRow>)
        ensures
            final(self).words().len() == rows@.len(),
            forall|i: int| 0 <= i < rows@.len() ==> loaded_from(#[trigger] final(self).words()[i], rows@[i]),
    {
        let mut words: Vec<BlockedWord> = Vec::new();
        let mut i: usize = 0;
        while i < rows.len()
            invariant
                i <= rows@.len(),
                words@.len() == i,
                forall|k: int| 0 <= k < i ==> loaded_from(#[trigger] words@[k], rows@[k]),
            decreases rows.len() - i,
        {
            let row = &rows[i];
            words.push(BlockedWord {
                word: to_lowercase(row.word.as_str()),
                category: row.category.clone(),
                is_regex: row.is_regex != 0,
            });
            i = i + 1;
        }
        self.blocked_words = words;
    }

    /// Removes separators (`.`, `*`, `-`, `_`, space) and turns look-alike
    /// digits and symbols into letters: 0→o, 1→i, 3→e, 4→a, 5→s, 7→t, @→a, $→s.
    pub fn normalize_evasion(text: &str) -> (r: String)
        ensures
            r@ == normalize_seq(text@),
    {
        let v = to_chars(text);
        let mut r = String::new();
        let mut i: usize = 0;
        while i < v.len()
            invariant
                i <= v@.len(),
                v@ == text@,
                r@ == normalize_seq(v@.take(i as int)),
            decreases v.len() - i,
        {
            let c = v[i];
            proof {
                let q = v@.take(i + 1);
                assert(q.drop_last() =~= v@.take(i as int));
                assert(q.last() == c);
            }
            if c == '.' || c == '*' || c == '-' || c == '_' || c == ' ' {
            } else if c == '0' {
                push_char(&mut r, 'o');
            } else if c == '1' {
                push_char(&mut r, 'i');
            } else if c == '3' {
                push_char(&mut r, 'e');
            } else if c == '4' {
                push_char(&mut r, 'a');
            } else if c == '5' {
                push_char(&mut r, 's');
            } else if c == '7' {
                push_char(&mut r, 't');
            } else if c == '@' {
                push_char(&mut r, 'a');
            } else if c == '$' {
                push_char(&mut r, 's');
            } else {
                push_char(&mut r, c);
            }
            i = i + 1;
        }
        assert(v@.take(v@.len() as int) =~= v@);
        r
    }

    /// Judges a text: more than two links (`http://` or `https://`) make it
    /// `Suspicious`; else the first blocked word found in the lower-cased or
    /// the normalised text makes it `Blocked`; else it is `Clean`.
    pub fn check(&self, text: &str) -> (r: FilterResult)
        ensures
            verdict_holds(self.words(), text@, r),
            r is Suspicious <==> flagged(text@),
            r is Blocked <==> blocked(self.words(), text@),
            r is Clean <==> !flagged(text@) && !blocked(self.words(), text@),
    {
        let text_lower = to_lowercase(text);
        let normalized = Self::normalize_evasion(text_lower.as_str());
        proof {
            reveal_strlit("http://");
            reveal_strlit("https://");
        }
        let http = count_occurrences(text_lower.as_str(), "http://");
        let https = count_occurrences(text_lower.as_str(), "https://");
        if http > 2 || https > 2 || http + https > 2 {
            return FilterResult::Suspicious { reason: owned("Too many URLs") };
        }
        let lower_chars = to_chars(text_lower.as_str());
        let norm_chars = to_chars(normalized.as_str());
        let ghost words = self.blocked_words@;
        let mut i: usize = 0;
        while i < self.blocked_words.len()
            invariant
                i <= words.len(),
                words == self.blocked_words@,
                lower_chars@ == lowercase(text@),
                norm_chars@ == normalize_seq(lowercase(text@)),
                url_count(lowercase(text@)) <= 2,
                forall|j: int| 0 <= j < i ==> !hits(#[trigger] words[j].word@, norm_chars@, lower_chars@),
            decreases words.len() - i,
        {
            let blocked = &self.blocked_words[i];
            let w = to_chars(blocked.word.as_str());
            if chars_contain(&norm_chars, &w) || chars_contain(&lower_chars, &w) {
                let category = blocked.category.clone();
                let matched_word = blocked.word.clone();
                assert(hits(words[i as int].word@, norm_chars@, lower_chars@));
                assert(category@ == words[i as int].category@ && matched_word@ == words[i as int].word@);
                let r = FilterResult::Blocked { category, matched_word };
                return r;
            }
            i = i + 1;
        }
        FilterResult::Clean
    }
}

} // verus!
