//! Character-level string toolkit: the models of `trim`, `split_whitespace`,
//! `split`, `replace`, `contains` and `matches().count()` that the rest of the
//! library states its contracts over, with verified implementations.
use vstd::prelude::*;

verus! {

// ───────────────────────────── specifications ─────────────────────────────

/// Unicode `White_Space`, the set that `char::is_whitespace` tests.
pub open spec fn is_ws(c: char) -> bool {
    let u = c as u32;
    (0x9 <= u && u <= 0xd) || u == 0x20 || u == 0x85 || u == 0xa0 || u == 0x1680
        || (0x2000 <= u && u <= 0x200a) || u == 0x2028 || u == 0x2029 || u == 0x202f
        || u == 0x205f || u == 0x3000
}

/// `s` without its leading white space.
pub open spec fn trim_start_seq(s: Seq<char>) -> Seq<char>
    decreases s.len(),
{
    if s.len() > 0 && is_ws(s[0]) {
        trim_start_seq(s.drop_first())
    } else {
        s
    }
}

/// `s` without its trailing white space.
pub open spec fn trim_end_seq(s: Seq<char>) -> Seq<char>
    decreases s.len(),
{
    if s.len() > 0 && is_ws(s.last()) {
        trim_end_seq(s.drop_last())
    } else {
        s
    }
}

/// `str::trim`: `s` without leading and trailing white space.
pub open spec fn trim_seq(s: Seq<char>) -> Seq<char> {
    trim_end_seq(trim_start_seq(s))
}

/// `str::split_whitespace`: the maximal runs of non-white-space characters, in order.
pub open spec fn words(s: Seq<char>) -> Seq<Seq<char>>
    decreases s.len(),
{
    if s.len() == 0 {
        seq![]
    } else {
        let p = s.drop_last();
        let c = s.last();
        let w = words(p);
        if is_ws(c) {
            w
        } else if p.len() > 0 && !is_ws(p.last()) {
            w.update(w.len() - 1, w.last().push(c))
        } else {
            w.push(seq![c])
        }
    }
}

/// `str::split(sep)` on a single character: the pieces between separators
/// (there is always one more piece than there are separators).
pub open spec fn split_on(s: Seq<char>, sep: char) -> Seq<Seq<char>>
    decreases s.len(),
{
    if s.len() == 0 {
        seq![seq![]]
    } else {
        let w = split_on(s.drop_last(), sep);
        if s.last() == sep {
            w.push(seq![])
        } else {
            w.update(w.len() - 1, w.last().push(s.last()))
        }
    }
}

/// `str::replace(c, t)` for a single character `c`.
pub open spec fn replace_char_seq(s: Seq<char>, c: char, t: Seq<char>) -> Seq<char>
    decreases s.len(),
{
    if s.len() == 0 {
        seq![]
    } else if s.last() == c {
        replace_char_seq(s.drop_last(), c, t) + t
    } else {
        replace_char_seq(s.drop_last(), c, t).push(s.last())
    }
}

/// `pat` occurs in `s` at position `i`.
pub open spec fn occurs_at(s: Seq<char>, pat: Seq<char>, i: int) -> bool {
    0 <= i && i + pat.len() <= s.len() && s.subrange(i, i + pat.len()) == pat
}

/// `str::contains`: `pat` occurs somewhere in `s`.
pub open spec fn has_substring(s: Seq<char>, pat: Seq<char>) -> bool {
    exists|i: int| occurs_at(s, pat, i)
}

/// `str::matches(pat).count()` from position `i` on: leftmost, non-overlapping occurrences.
pub open spec fn count_from(s: Seq<char>, pat: Seq<char>, i: int) -> nat
    decreases s.len() - i,
{
    if pat.len() == 0 || i < 0 || i + pat.len() > s.len() {
        0
    } else if occurs_at(s, pat, i) {
        1 + count_from(s, pat, i + pat.len())
    } else {
        count_from(s, pat, i + 1)
    }
}

/// `str::matches(pat).count()` for a non-empty pattern.
pub open spec fn count_matches(s: Seq<char>, pat: Seq<char>) -> nat {
    count_from(s, pat, 0)
}

/// `str::starts_with` on a string pattern.
pub open spec fn starts_with_seq(s: Seq<char>, p: Seq<char>) -> bool {
    p.len() <= s.len() && s.subrange(0, p.len() as int) == p
}

/// The decimal digit character of `d < 10`.
pub open spec fn digit_char(d: nat) -> char {
    ((d + 48) as u8) as char
}

/// The decimal notation of `n`, as `format!("{}", n)` writes it.
pub open spec fn decimal(n: nat) -> Seq<char>
    decreases n,
{
    if n < 10 {
        seq![digit_char(n)]
    } else {
        decimal(n / 10).push(digit_char(n % 10))
    }
}

/// The decimal notation of a signed integer.
pub open spec fn signed_decimal(n: int) -> Seq<char> {
    if n < 0 {
        seq!['-'] + decimal((-n) as nat)
    } else {
        decimal(n as nat)
    }
}

/// What `str::to_lowercase` returns for `s` (Unicode case mapping; std's algorithm).
pub uninterp spec fn lowercase(s: Seq<char>) -> Seq<char>;

/// What `char::to_uppercase` yields for `c`, collected into a string.
pub uninterp spec fn uppercase_char(c: char) -> Seq<char>;

/// Concatenation of `parts` with `sep` between neighbours (`join`).
pub open spec fn join_seq(parts: Seq<Seq<char>>, sep: Seq<char>) -> Seq<char>
    decreases parts.len(),
{
    if parts.len() == 0 {
        seq![]
    } else if parts.len() == 1 {
        parts[0]
    } else {
        join_seq(parts.drop_last(), sep) + sep + parts.last()
    }
}

/// The concatenation of `parts`, in order.
pub open spec fn concat_seqs(parts: Seq<Seq<char>>) -> Seq<char>
    decreases parts.len(),
{
    if parts.len() == 0 {
        seq![]
    } else {
        concat_seqs(parts.drop_last()) + parts.last()
    }
}

/// The view of an optional string.
pub open spec fn opt_view(o: Option<String>) -> Option<Seq<char>> {
    match o {
        Some(s) => Some(s@),
        None => None,
    }
}

/// The text of an optional string after `as_deref().unwrap_or(d)`.
pub open spec fn or_default(o: Option<String>, d: Seq<char>) -> Seq<char> {
    match o {
        Some(s) => s@,
        None => d,
    }
}

/// `s` is blank: only white space (what `s.trim().is_empty()` tests).
pub open spec fn is_blank(s: Seq<char>) -> bool {
    trim_seq(s).len() == 0
}

/// `str::trim_start_matches(c)`: `s` without its leading `c`s.
pub open spec fn strip_start_char(s: Seq<char>, c: char) -> Seq<char>
    decreases s.len(),
{
    if s.len() > 0 && s[0] == c {
        strip_start_char(s.drop_first(), c)
    } else {
        s
    }
}

/// `str::trim_end_matches(c)`: `s` without its trailing `c`s.
pub open spec fn strip_end_char(s: Seq<char>, c: char) -> Seq<char>
    decreases s.len(),
{
    if s.len() > 0 && s.last() == c {
        strip_end_char(s.drop_last(), c)
    } else {
        s
    }
}

/// `str::trim_matches(c)`.
pub open spec fn strip_char(s: Seq<char>, c: char) -> Seq<char> {
    strip_end_char(strip_start_char(s, c), c)
}

/// `str::trim_start_matches(p)` for a string pattern: every leading copy of `p` removed.
pub open spec fn strip_prefix_all(s: Seq<char>, p: Seq<char>) -> Seq<char>
    decreases s.len(),
{
    if p.len() > 0 && starts_with_seq(s, p) {
        strip_prefix_all(s.skip(p.len() as int), p)
    } else {
        s
    }
}

/// The position of the first `c` in `s` (`s.len()` when there is none).
pub open spec fn first_index(s: Seq<char>, c: char) -> int
    decreases s.len(),
{
    if s.len() == 0 {
        0
    } else if s[0] == c {
        0
    } else {
        1 + first_index(s.drop_first(), c)
    }
}

// ───────────────────────────── lemmas ─────────────────────────────

proof fn lemma_strip_start(s: Seq<char>, c: char, i: int)
    requires
        0 <= i <= s.len(),
        forall|k: int| 0 <= k < i ==> #[trigger] s[k] == c,
        i == s.len() || s[i] != c,
    ensures
        strip_start_char(s, c) == s.subrange(i, s.len() as int),
    decreases i,
{
    if i == 0 {
        assert(s.subrange(0, s.len() as int) =~= s);
    } else {
        let t = s.drop_first();
        assert forall|k: int| 0 <= k < i - 1 implies #[trigger] t[k] == c by {
            assert(t[k] == s[k + 1]);
        }
        lemma_strip_start(t, c, i - 1);
        assert(t.subrange(i - 1, t.len() as int) =~= s.subrange(i, s.len() as int));
    }
}

proof fn lemma_strip_end(s: Seq<char>, c: char, j: int)
    requires
        0 <= j <= s.len(),
        forall|k: int| j <= k < s.len() ==> #[trigger] s[k] == c,
        j == 0 || s[j - 1] != c,
    ensures
        strip_end_char(s, c) == s.subrange(0, j),
    decreases s.len() - j,
{
    if j == s.len() {
        assert(s.subrange(0, j) =~= s);
    } else {
        let t = s.drop_last();
        assert forall|k: int| j <= k < t.len() implies #[trigger] t[k] == c by {
            assert(t[k] == s[k]);
        }
        lemma_strip_end(t, c, j);
        assert(t.subrange(0, j) =~= s.subrange(0, j));
    }
}

proof fn lemma_first_index(s: Seq<char>, c: char, i: int)
    requires
        0 <= i <= s.len(),
        forall|k: int| 0 <= k < i ==> #[trigger] s[k] != c,
        i == s.len() || s[i] == c,
    ensures
        first_index(s, c) == i,
    decreases i,
{
    if i > 0 {
        let t = s.drop_first();
        assert forall|k: int| 0 <= k < i - 1 implies #[trigger] t[k] != c by {
            assert(t[k] == s[k + 1]);
        }
        lemma_first_index(t, c, i - 1);
    }
}

proof fn lemma_trim_start(s: Seq<char>, i: int)
    requires
        0 <= i <= s.len(),
        forall|k: int| 0 <= k < i ==> is_ws(#[trigger] s[k]),
        i == s.len() || !is_ws(s[i]),
    ensures
        trim_start_seq(s) == s.subrange(i, s.len() as int),
    decreases i,
{
    if i == 0 {
        assert(s.subrange(0, s.len() as int) =~= s);
    } else {
        let t = s.drop_first();
        assert forall|k: int| 0 <= k < i - 1 implies is_ws(#[trigger] t[k]) by {
            assert(t[k] == s[k + 1]);
        }
        lemma_trim_start(t, i - 1);
        assert(t.subrange(i - 1, t.len() as int) =~= s.subrange(i, s.len() as int));
    }
}

proof fn lemma_trim_end(s: Seq<char>, j: int)
    requires
        0 <= j <= s.len(),
        forall|k: int| j <= k < s.len() ==> is_ws(#[trigger] s[k]),
        j == 0 || !is_ws(s[j - 1]),
    ensures
        trim_end_seq(s) == s.subrange(0, j),
    decreases s.len() - j,
{
    if j == s.len() {
        assert(s.subrange(0, j) =~= s);
    } else {
        let t = s.drop_last();
        assert forall|k: int| j <= k < t.len() implies is_ws(#[trigger] t[k]) by {
            assert(t[k] == s[k]);
        }
        lemma_trim_end(t, j);
        assert(t.subrange(0, j) =~= s.subrange(0, j));
    }
}

/// A text placed between two others occurs in the whole.
pub proof fn lemma_occurs_between(a: Seq<char>, p: Seq<char>, b: Seq<char>)
    ensures
        occurs_at(a + p + b, p, a.len() as int),
        has_substring(a + p + b, p),
{
    assert((a + p + b).subrange(a.len() as int, (a.len() + p.len()) as int) =~= p);
}

/// A text at the end of another occurs there.
pub proof fn lemma_occurs_at_end(a: Seq<char>, p: Seq<char>)
    ensures
        occurs_at(a + p, p, a.len() as int),
{
    assert((a + p).subrange(a.len() as int, (a.len() + p.len()) as int) =~= p);
}

/// An occurrence stays where it is when text is appended.
pub proof fn lemma_occurs_extends(p: Seq<char>, i: int)
    ensures
        forall|s: Seq<char>, t: Seq<char>| occurs_at(s, p, i) ==> #[trigger] occurs_at(s + t, p, i),
{
    assert forall|s: Seq<char>, t: Seq<char>| occurs_at(s, p, i) implies #[trigger] occurs_at(s + t, p, i) by {
        assert((s + t).subrange(i, i + p.len()) =~= s.subrange(i, i + p.len()));
    }
}

// ───────────────────────────── executable ─────────────────────────────

/// Appends one character to a string (`String::push`).
#[verifier::external_body]
pub(crate) fn push_char(s: &mut String, c: char)
    ensures
        final(s)@ == old(s)@.push(c),
{
    s.push(c);
}

/// `str::to_lowercase`.
#[verifier::external_body]
pub(crate) fn to_lowercase(s: &str) -> (r: String)
    ensures
        r@ == lowercase(s@),
{
    s.to_lowercase()
}

/// `char::to_uppercase`, collected into a string.
#[verifier::external_body]
pub(crate) fn char_to_uppercase(c: char) -> (r: String)
    ensures
        r@ == uppercase_char(c),
{
    c.to_uppercase().collect::<String>()
}

/// An owned copy of `s`.
pub fn owned(s: &str) -> (r: String)
    ensures
        r@ == s@,
{
    let mut r = String::new();
    r.append(s);
    r
}

/// A copy of an optional string.
pub fn clone_opt(o: &Option<String>) -> (r: Option<String>)
    ensures
        opt_view(r) == opt_view(*o),
{
    match o {
        Some(s) => Some(s.clone()),
        None => None,
    }
}

/// The characters of `s`, in order.
pub fn to_chars(s: &str) -> (r: Vec<char>)
    ensures
        r@ == s@,
{
    let mut r: Vec<char> = Vec::new();
    for c in it: s.chars()
        invariant
            r@ == it.seq().take(it.index() as int),
            it.seq() == s@,
    {
        r.push(c);
    }
    r
}

/// The string made of `v[lo..hi]`.
pub fn from_chars_range(v: &Vec<char>, lo: usize, hi: usize) -> (r: String)
    requires
        lo <= hi <= v.len(),
    ensures
        r@ == v@.subrange(lo as int, hi as int),
{
    let mut r = String::new();
    let mut i = lo;
    while i < hi
        invariant
            lo <= i <= hi <= v.len(),
            r@ == v@.subrange(lo as int, i as int),
        decreases hi - i,
    {
        push_char(&mut r, v[i]);
        assert(v@.subrange(lo as int, i + 1) =~= v@.subrange(lo as int, i as int).push(v@[i as int]));
        i = i + 1;
    }
    r
}

/// The string made of the characters of `v`.
pub fn from_chars(v: &Vec<char>) -> (r: String)
    ensures
        r@ == v@,
{
    let r = from_chars_range(v, 0, v.len());
    assert(v@.subrange(0, v.len() as int) =~= v@);
    r
}

/// `char::is_whitespace`.
pub fn char_is_ws(c: char) -> (r: bool)
    ensures
        r == is_ws(c),
{
    let u = c as u32;
    (0x9 <= u && u <= 0xd) || u == 0x20 || u == 0x85 || u == 0xa0 || u == 0x1680
        || (0x2000 <= u && u <= 0x200a) || u == 0x2028 || u == 0x2029 || u == 0x202f
        || u == 0x205f || u == 0x3000
}

/// `str::trim` over a character vector.
pub fn trim_chars(v: &Vec<char>) -> (r: String)
    ensures
        r@ == trim_seq(v@),
{
    let n = v.len();
    let mut i: usize = 0;
    while i < n && char_is_ws(v[i])
        invariant
            i <= n == v.len(),
            forall|k: int| 0 <= k < i ==> is_ws(#[trigger] v@[k]),
        decreases n - i,
    {
        i = i + 1;
    }
    proof {
        lemma_trim_start(v@, i as int);
    }
    let mut j: usize = n;
    while j > i && char_is_ws(v[j - 1])
        invariant
            i <= j <= n == v.len(),
            forall|k: int| j <= k < n ==> is_ws(#[trigger] v@[k]),
        decreases j,
    {
        j = j - 1;
    }
    proof {
        let t = v@.subrange(i as int, n as int);
        assert forall|k: int| (j - i) <= k < t.len() implies is_ws(#[trigger] t[k]) by {
            assert(t[k] == v@[k + i]);
        }
        if j > i {
            assert(t[j - i - 1] == v@[j - 1]);
        }
        lemma_trim_end(t, (j - i) as int);
        assert(t.subrange(0, (j - i) as int) =~= v@.subrange(i as int, j as int));
    }
    from_chars_range(v, i, j)
}

/// `str::trim`.
pub fn trim(s: &str) -> (r: String)
    ensures
        r@ == trim_seq(s@),
{
    let v = to_chars(s);
    trim_chars(&v)
}

/// `s.trim().is_empty()`.
pub fn blank(s: &str) -> (r: bool)
    ensures
        r == is_blank(s@),
{
    let t = trim(s);
    t.as_str().is_empty()
}

/// `str::split_whitespace`, each word as its characters.
pub fn words_of(s: &str) -> (r: Vec<Vec<char>>)
    ensures
        r@.len() == words(s@).len(),
        forall|k: int| 0 <= k < r@.len() ==> (#[trigger] r@[k])@ == words(s@)[k],
{
    let v = to_chars(s);
    let n = v.len();
    let mut done: Vec<Vec<char>> = Vec::new();
    let mut cur: Vec<char> = Vec::new();
    let mut i: usize = 0;
    while i < n
        invariant
            i <= n == v.len(),
            v@ == s@,
            ({
                let w = words(v@.take(i as int));
                &&& cur@.len() > 0 <==> (i > 0 && !is_ws(v@[i - 1]))
                &&& if cur@.len() > 0 {
                    w.len() == done@.len() + 1 && w.last() == cur@
                } else {
                    w.len() == done@.len()
                }
                &&& forall|k: int| 0 <= k < done@.len() ==> (#[trigger] done@[k])@ == w[k]
            }),
        decreases n - i,
    {
        let c = v[i];
        let ghost p = v@.take(i as int);
        let ghost q = v@.take(i + 1);
        proof {
            assert(q.drop_last() =~= p);
            assert(q.last() == c);
            if i > 0 {
                assert(p.last() == v@[i - 1]);
            }
        }
        if char_is_ws(c) {
            if cur.len() > 0 {
                let finished = cur;
                done.push(finished);
                cur = Vec::new();
            }
        } else {
            if cur.len() == 0 {
                proof {
                    if p.len() > 0 {
                        assert(is_ws(p.last()));
                    }
                }
            }
            cur.push(c);
        }
        i = i + 1;
    }
    if cur.len() > 0 {
        done.push(cur);
    }
    assert(v@.take(n as int) =~= v@);
    done
}

/// `str::split(sep)` for a character separator, each piece as its characters.
pub fn split_char(s: &str, sep: char) -> (r: Vec<Vec<char>>)
    ensures
        r@.len() == split_on(s@, sep).len(),
        forall|k: int| 0 <= k < r@.len() ==> (#[trigger] r@[k])@ == split_on(s@, sep)[k],
{
    let v = to_chars(s);
    let n = v.len();
    let mut done: Vec<Vec<char>> = Vec::new();
    let mut cur: Vec<char> = Vec::new();
    let mut i: usize = 0;
    while i < n
        invariant
            i <= n == v.len(),
            v@ == s@,
            ({
                let w = split_on(v@.take(i as int), sep);
                &&& w.len() == done@.len() + 1
                &&& w.last() == cur@
                &&& forall|k: int| 0 <= k < done@.len() ==> (#[trigger] done@[k])@ == w[k]
            }),
        decreases n - i,
    {
        let c = v[i];
        proof {
            let p = v@.take(i as int);
            let q = v@.take(i + 1);
            assert(q.drop_last() =~= p);
            assert(q.last() == c);
        }
        if c == sep {
            let finished = cur;
            done.push(finished);
            cur = Vec::new();
        } else {
            cur.push(c);
        }
        i = i + 1;
    }
    done.push(cur);
    assert(v@.take(n as int) =~= v@);
    done
}

/// `str::replace(c, t)` for a character `c`.
pub fn replace_char(s: &str, c: char, t: &str) -> (r: String)
    ensures
        r@ == replace_char_seq(s@, c, t@),
{
    let v = to_chars(s);
    let n = v.len();
    let mut r = String::new();
    let mut i: usize = 0;
    while i < n
        invariant
            i <= n == v.len(),
            v@ == s@,
            r@ == replace_char_seq(v@.take(i as int), c, t@),
        decreases n - i,
    {
        let x = v[i];
        proof {
            let q = v@.take(i + 1);
            assert(q.drop_last() =~= v@.take(i as int));
            assert(q.last() == x);
        }
        if x == c {
            r.append(t);
        } else {
            push_char(&mut r, x);
        }
        i = i + 1;
    }
    assert(v@.take(n as int) =~= v@);
    r
}

/// Whether `pat` occurs in `v` at position `i`.
pub fn chars_occur_at(v: &Vec<char>, pat: &Vec<char>, i: usize) -> (r: bool)
    ensures
        r == occurs_at(v@, pat@, i as int),
{
    if i > v.len() || pat.len() > v.len() - i {
        return false;
    }
    let mut k: usize = 0;
    while k < pat.len()
        invariant
            i + pat.len() <= v.len(),
            k <= pat.len(),
            forall|m: int| 0 <= m < k ==> v@[i + m] == pat@[m],
        decreases pat.len() - k,
    {
        if v[i + k] != pat[k] {
            assert(v@.subrange(i as int, i + pat.len())[k as int] != pat@[k as int]);
            return false;
        }
        k = k + 1;
    }
    assert(v@.subrange(i as int, i + pat.len()) =~= pat@);
    true
}

/// `str::contains` on character vectors.
pub fn chars_contain(v: &Vec<char>, pat: &Vec<char>) -> (r: bool)
    ensures
        r == has_substring(v@, pat@),
{
    if pat.len() > v.len() {
        return false;
    }
    let last = v.len() - pat.len();
    let mut i: usize = 0;
    while i < last
        invariant
            last + pat.len() == v.len(),
            i <= last,
            forall|j: int| 0 <= j < i ==> !occurs_at(v@, pat@, j),
        decreases last - i,
    {
        if chars_occur_at(v, pat, i) {
            return true;
        }
        i = i + 1;
    }
    if chars_occur_at(v, pat, last) {
        return true;
    }
    assert forall|j: int| !occurs_at(v@, pat@, j) by {
        if 0 <= j < i {
        }
    }
    false
}

/// `str::contains`.
pub fn contains(s: &str, pat: &str) -> (r: bool)
    ensures
        r == has_substring(s@, pat@),
{
    let v = to_chars(s);
    let p = to_chars(pat);
    chars_contain(&v, &p)
}

/// `str::matches(pat).count()` for a non-empty pattern.
pub fn count_occurrences(s: &str, pat: &str) -> (r: usize)
    requires
        pat@.len() > 0,
    ensures
        r == count_matches(s@, pat@),
{
    let v = to_chars(s);
    let p = to_chars(pat);
    let n = v.len();
    let mut i: usize = 0;
    let mut count: usize = 0;
    while i < n
        invariant
            n == v.len(),
            v@ == s@,
            p@ == pat@,
            p@.len() > 0,
            i <= n + p@.len(),
            count <= i,
            count + count_from(v@, p@, i as int) == count_from(v@, p@, 0),
        decreases n + p@.len() - i,
    {
        if p.len() > n - i {
            i = n;
        } else if chars_occur_at(&v, &p, i) {
            count = count + 1;
            i = i + p.len();
        } else {
            i = i + 1;
        }
    }
    assert(count_from(v@, p@, i as int) == 0);
    count
}

/// `str::starts_with`.
pub fn starts_with(s: &str, p: &str) -> (r: bool)
    ensures
        r == starts_with_seq(s@, p@),
{
    let v = to_chars(s);
    let q = to_chars(p);
    let r = chars_occur_at(&v, &q, 0);
    r
}

/// `str::trim_start_matches(c)` then `str::trim_end_matches(c)` on a
/// character vector: the bounds of what remains.
fn strip_bounds(v: &Vec<char>, lead: char, tail: char) -> (r: (usize, usize))
    ensures
        r.0 <= r.1 <= v@.len(),
        strip_end_char(strip_start_char(v@, lead), tail) == v@.subrange(r.0 as int, r.1 as int),
{
    let n = v.len();
    let mut i: usize = 0;
    while i < n && v[i] == lead
        invariant
            i <= n == v.len(),
            forall|k: int| 0 <= k < i ==> #[trigger] v@[k] == lead,
        decreases n - i,
    {
        i = i + 1;
    }
    proof {
        lemma_strip_start(v@, lead, i as int);
    }
    let mut j: usize = n;
    while j > i && v[j - 1] == tail
        invariant
            i <= j <= n == v.len(),
            forall|k: int| j <= k < n ==> #[trigger] v@[k] == tail,
        decreases j,
    {
        j = j - 1;
    }
    proof {
        let t = v@.subrange(i as int, n as int);
        assert forall|k: int| (j - i) <= k < t.len() implies #[trigger] t[k] == tail by {
            assert(t[k] == v@[k + i]);
        }
        if j > i {
            assert(t[j - i - 1] == v@[j - 1]);
        }
        lemma_strip_end(t, tail, (j - i) as int);
        assert(t.subrange(0, (j - i) as int) =~= v@.subrange(i as int, j as int));
    }
    (i, j)
}

/// `s.trim_start_matches(lead).trim_end_matches(tail)`.
pub fn strip_start_end(s: &str, lead: char, tail: char) -> (r: String)
    ensures
        r@ == strip_end_char(strip_start_char(s@, lead), tail),
{
    let v = to_chars(s);
    let (i, j) = strip_bounds(&v, lead, tail);
    from_chars_range(&v, i, j)
}

/// `str::trim_start_matches(p)` for a non-empty string pattern.
pub fn strip_prefix_repeated(s: &str, p: &str) -> (r: String)
    ensures
        r@ == strip_prefix_all(s@, p@),
{
    let v = to_chars(s);
    let q = to_chars(p);
    if q.len() == 0 {
        return owned(s);
    }
    let mut i: usize = 0;
    assert(v@.skip(0) =~= v@);
    while i <= v.len() && chars_occur_at(&v, &q, i)
        invariant
            i <= v@.len(),
            q@ == p@,
            q@.len() > 0,
            strip_prefix_all(v@, q@) == strip_prefix_all(v@.skip(i as int), q@),
        decreases v@.len() - i,
    {
        proof {
            let rest = v@.skip(i as int);
            assert(rest.subrange(0, q@.len() as int) =~= v@.subrange(i as int, i + q@.len()));
            assert(rest.skip(q@.len() as int) =~= v@.skip(i + q@.len()));
        }
        i = i + q.len();
    }
    proof {
        let rest = v@.skip(i as int);
        if q@.len() <= rest.len() {
            assert(rest.subrange(0, q@.len() as int) =~= v@.subrange(i as int, i + q@.len()));
        }
        assert(rest =~= v@.subrange(i as int, v@.len() as int));
    }
    from_chars_range(&v, i, v.len())
}

/// The position of the first `c` in `v` (`v.len()` when there is none).
pub fn find_char(v: &Vec<char>, c: char) -> (r: usize)
    ensures
        r as int == first_index(v@, c),
        r <= v@.len(),
        r < v@.len() ==> v@[r as int] == c,
        forall|k: int| 0 <= k < r ==> v@[k] != c,
{
    let mut i: usize = 0;
    while i < v.len() && v[i] != c
        invariant
            i <= v@.len(),
            forall|k: int| 0 <= k < i ==> #[trigger] v@[k] != c,
        decreases v.len() - i,
    {
        i = i + 1;
    }
    proof {
        lemma_first_index(v@, c, i as int);
    }
    i
}

/// String equality on views.
pub fn eq_str(a: &str, b: &str) -> (r: bool)
    ensures
        r == (a@ == b@),
{
    let v = to_chars(a);
    let w = to_chars(b);
    if v.len() != w.len() {
        return false;
    }
    let r = chars_occur_at(&v, &w, 0);
    proof {
        if r {
            assert(v@.subrange(0, w@.len() as int) =~= v@);
        } else {
            assert(v@.subrange(0, w@.len() as int) =~= v@);
        }
    }
    r
}

/// The digit character of `d < 10`.
pub fn digit(d: u64) -> (c: char)
    requires
        d < 10,
    ensures
        c == digit_char(d as nat),
{
    let b: u8 = (d as u8) + 48;
    b as char
}

/// `format!("{}", n)` for an unsigned integer.
pub fn u64_to_string(n: u64) -> (r: String)
    ensures
        r@ == decimal(n as nat),
    decreases n,
{
    if n < 10 {
        let mut r = String::new();
        push_char(&mut r, digit(n));
        r
    } else {
        let mut r = u64_to_string(n / 10);
        push_char(&mut r, digit(n % 10));
        r
    }
}

/// `format!("{}", n)` for a signed integer.
pub fn i64_to_string(n: i64) -> (r: String)
    ensures
        r@ == signed_decimal(n as int),
{
    if n < 0 {
        let m: u64 = (-(n as i128)) as u64;
        let mut r = String::new();
        push_char(&mut r, '-');
        let d = u64_to_string(m);
        r.append(d.as_str());
        r
    } else {
        u64_to_string(n as u64)
    }
}

/// Joins `parts` with `sep` between neighbours.
pub fn join(parts: &Vec<String>, sep: &str) -> (r: String)
    ensures
        r@ == join_seq(parts@.map_values(|p: String| p@), sep@),
{
    let ghost views = parts@.map_values(|p: String| p@);
    let mut r = String::new();
    let mut i: usize = 0;
    while i < parts.len()
        invariant
            i <= parts.len(),
            views == parts@.map_values(|p: String| p@),
            r@ == join_seq(views.take(i as int), sep@),
        decreases parts.len() - i,
    {
        proof {
            assert(views.take(i + 1).drop_last() =~= views.take(i as int));
            assert(views.take(i + 1).last() == parts@[i as int]@);
        }
        if i > 0 {
            r.append(sep);
        } else {
            assert(views.take(0) =~= Seq::<Seq<char>>::empty());
        }
        r.append(parts[i].as_str());
        i = i + 1;
    }
    assert(views.take(parts.len() as int) =~= views);
    r
}

} // verus!
