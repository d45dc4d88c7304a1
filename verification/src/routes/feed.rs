//! RSS 2.0 feeds of the latest posts (Indonesian and English).
use vstd::prelude::*;

use crate::dates::{date_text, format_date};
use crate::models::post::PostSummary;
use crate::text::{
    concat_seqs, eq_str, has_substring, lemma_occurs_at_end, lemma_occurs_between, lemma_occurs_extends, occurs_at,
    or_default, owned, replace_char, replace_char_seq, starts_with_seq,
};

verus! {

/// XML escaping: `&`, `<`, `>`, `"`, `'` become their entities (in that
/// order of replacement).
pub open spec fn xml_escaped(s: Seq<char>) -> Seq<char> {
    replace_char_seq(
        replace_char_seq(
            replace_char_seq(
                replace_char_seq(replace_char_seq(s, '&', "&amp;"@), '<', "&lt;"@),
                '>',
                "&gt;"@,
            ),
            '"',
            "&quot;"@,
        ),
        '\'',
        "&apos;"@,
    )
}

/// The RSS date format.
pub open spec fn rss_date_format() -> Seq<char> {
    "%a, %d %b %Y %H:%M:%S GMT"@
}

/// The channel header of the feed in `lang` (`en`, or Indonesian otherwise).
pub open spec fn rss_header(lang: Seq<char>, base_url: Seq<char>, now: i64) -> Seq<char> {
    let en = lang == "en"@;
    let title = if en { "Jagad Shalawat Blog"@ } else { "Blog Jagad Shalawat"@ };
    let description = if en {
        "Articles about digital payment technology, sharia-compliant payments, and automated billing."@
    } else {
        "Artikel seputar teknologi pembayaran digital, pembayaran syariah, dan penagihan otomatis."@
    };
    let link = if en { base_url + "/blog/ar"@ } else { base_url + "/blog"@ };
    let lang_code = if en { "en-us"@ } else { "id"@ };
    "<?xml version=\"1.0\" encoding=\"UTF-8\"?>\n<rss version=\"2.0\" xmlns:atom=\"http://www.w3.org/2005/Atom\">\n<channel>\n  <title>"@
        + xml_escaped(title) + "</title>\n  <description>"@ + xml_escaped(description)
        + "</description>\n  <link>"@ + link + "</link>\n  <atom:link href=\""@ + link
        + "/feed.xml\" rel=\"self\" type=\"application/rss+xml\"/>\n  <language>"@ + lang_code
        + "</language>\n  <lastBuildDate>"@ + date_text(now, rss_date_format())
        + "</lastBuildDate>\n  <generator>Jagad Shalawat Blog Engine (Rust)</generator>\n"@
}

/// The `<item>` of one post in the feed of `lang`.
pub open spec fn rss_item(post: PostSummary, lang: Seq<char>, base_url: Seq<char>) -> Seq<char> {
    let en = lang == "en"@;
    let title = if en { or_default(post.title_en, post.title@) } else { post.title@ };
    let description = if en {
        or_default(post.excerpt_en, or_default(post.excerpt, Seq::empty()))
    } else {
        or_default(post.excerpt, Seq::empty())
    };
    let link = if en {
        base_url + "/blog/ar/"@ + or_default(post.slug_en, post.slug@)
    } else {
        base_url + "/blog/"@ + post.slug@
    };
    let pub_date = match post.published_at {
        Some(t) => date_text(t, rss_date_format()),
        None => Seq::empty(),
    };
    "  <item>\n    <title>"@ + xml_escaped(title) + "</title>\n    <description>"@
        + xml_escaped(description) + "</description>\n    <link>"@ + link
        + "</link>\n    <guid isPermaLink=\"true\">"@ + link + "</guid>\n    <pubDate>"@ + pub_date
        + "</pubDate>\n    <author>"@ + xml_escaped(post.author_name@) + "</author>\n  </item>\n"@
}

/// The items of `posts`, in order.
pub open spec fn rss_items(posts: Seq<PostSummary>, lang: Seq<char>, base_url: Seq<char>) -> Seq<Seq<char>> {
    Seq::new(posts.len(), |i: int| rss_item(posts[i], lang, base_url))
}

/// The whole feed document.
pub open spec fn rss_document(posts: Seq<PostSummary>, lang: Seq<char>, base_url: Seq<char>, now: i64) -> Seq<char> {
    rss_header(lang, base_url, now) + concat_seqs(rss_items(posts, lang, base_url)) + "</channel>\n</rss>\n"@
}

proof fn lemma_replace_drops(s: Seq<char>, c: char, t: Seq<char>, d: char)
    requires
        d == c || forall|k: int| 0 <= k < s.len() ==> s[k] != d,
        forall|k: int| 0 <= k < t.len() ==> t[k] != d,
    ensures
        forall|k: int| 0 <= k < replace_char_seq(s, c, t).len() ==> replace_char_seq(s, c, t)[k] != d,
    decreases s.len(),
{
    if s.len() > 0 {
        let p = s.drop_last();
        assert(forall|k: int| 0 <= k < p.len() ==> p[k] == s[k]);
        lemma_replace_drops(p, c, t, d);
        let rp = replace_char_seq(p, c, t);
        if s.last() == c {
            let r = rp + t;
            assert forall|k: int| 0 <= k < r.len() implies r[k] != d by {
                if k < rp.len() {
                    assert(r[k] == rp[k]);
                } else {
                    assert(r[k] == t[k - rp.len()]);
                }
            }
        } else {
            let r = rp.push(s.last());
            assert forall|k: int| 0 <= k < r.len() implies r[k] != d by {
                if k < rp.len() {
                    assert(r[k] == rp[k]);
                } else {
                    assert(r[k] == s[s.len() - 1]);
                }
            }
        }
    }
}

/// Law: escaped XML text holds no `<`, `>`, `"` or `'`.
pub proof fn law_xml_escaped_has_no_markup(s: Seq<char>)
    ensures
        forall|k: int| 0 <= k < xml_escaped(s).len() ==> {
            let c = #[trigger] xml_escaped(s)[k];
            c != '<' && c != '>' && c != '"' && c != '\''
        },
{
    reveal_strlit("&amp;");
    reveal_strlit("&lt;");
    reveal_strlit("&gt;");
    reveal_strlit("&quot;");
    reveal_strlit("&apos;");
    let s1 = replace_char_seq(s, '&', "&amp;"@);
    let s2 = replace_char_seq(s1, '<', "&lt;"@);
    let s3 = replace_char_seq(s2, '>', "&gt;"@);
    let s4 = replace_char_seq(s3, '"', "&quot;"@);
    let s5 = replace_char_seq(s4, '\'', "&apos;"@);
    lemma_replace_drops(s1, '<', "&lt;"@, '<');
    lemma_replace_drops(s2, '>', "&gt;"@, '<');
    lemma_replace_drops(s2, '>', "&gt;"@, '>');
    lemma_replace_drops(s3, '"', "&quot;"@, '<');
    lemma_replace_drops(s3, '"', "&quot;"@, '>');
    lemma_replace_drops(s3, '"', "&quot;"@, '"');
    lemma_replace_drops(s4, '\'', "&apos;"@, '<');
    lemma_replace_drops(s4, '\'', "&apos;"@, '>');
    lemma_replace_drops(s4, '\'', "&apos;"@, '"');
    lemma_replace_drops(s4, '\'', "&apos;"@, '\'');
}

/// The entity `&amp;`.
pub open spec fn amp_entity() -> Seq<char> {
    seq!['&', 'a', 'm', 'p', ';']
}

/// The entity `&lt;`.
pub open spec fn lt_entity() -> Seq<char> {
    seq!['&', 'l', 't', ';']
}

/// The entity `&gt;`.
pub open spec fn gt_entity() -> Seq<char> {
    seq!['&', 'g', 't', ';']
}

/// The entity `&quot;`.
pub open spec fn quot_entity() -> Seq<char> {
    seq!['&', 'q', 'u', 'o', 't', ';']
}

/// The entity `&apos;`.
pub open spec fn apos_entity() -> Seq<char> {
    seq!['&', 'a', 'p', 'o', 's', ';']
}

/// What escaping makes of one character.
pub open spec fn xml_char(c: char) -> Seq<char> {
    if c == '&' {
        amp_entity()
    } else if c == '<' {
        lt_entity()
    } else if c == '>' {
        gt_entity()
    } else if c == '"' {
        quot_entity()
    } else if c == '\'' {
        apos_entity()
    } else {
        seq![c]
    }
}

/// One of the five entities begins at position `k` of `s`.
pub open spec fn entity_at(s: Seq<char>, k: int) -> bool {
    let t = s.skip(k);
    starts_with_seq(t, amp_entity()) || starts_with_seq(t, lt_entity()) || starts_with_seq(t, gt_entity())
        || starts_with_seq(t, quot_entity()) || starts_with_seq(t, apos_entity())
}

/// Unescaping, left to right: each of the five entities becomes its
/// character; every other character stays.
pub open spec fn xml_unescaped(s: Seq<char>) -> Seq<char>
    decreases s.len(),
{
    if s.len() == 0 {
        seq![]
    } else if s.len() >= 5 && s.subrange(0, 5) == amp_entity() {
        seq!['&'] + xml_unescaped(s.skip(5))
    } else if s.len() >= 4 && s.subrange(0, 4) == lt_entity() {
        seq!['<'] + xml_unescaped(s.skip(4))
    } else if s.len() >= 4 && s.subrange(0, 4) == gt_entity() {
        seq!['>'] + xml_unescaped(s.skip(4))
    } else if s.len() >= 6 && s.subrange(0, 6) == quot_entity() {
        seq!['"'] + xml_unescaped(s.skip(6))
    } else if s.len() >= 6 && s.subrange(0, 6) == apos_entity() {
        seq!['\''] + xml_unescaped(s.skip(6))
    } else {
        seq![s[0]] + xml_unescaped(s.drop_first())
    }
}

proof fn lemma_replace_concat(a: Seq<char>, b: Seq<char>, c: char, t: Seq<char>)
    ensures
        replace_char_seq(a + b, c, t) == replace_char_seq(a, c, t) + replace_char_seq(b, c, t),
    decreases b.len(),
{
    if b.len() == 0 {
        assert(a + b =~= a);
        assert(replace_char_seq(a, c, t) + replace_char_seq(b, c, t) =~= replace_char_seq(a, c, t));
    } else {
        lemma_replace_concat(a, b.drop_last(), c, t);
        assert((a + b).drop_last() =~= a + b.drop_last());
        assert((a + b).last() == b.last());
        let ra = replace_char_seq(a, c, t);
        let rb = replace_char_seq(b.drop_last(), c, t);
        if b.last() == c {
            assert(ra + rb + t =~= ra + (rb + t));
        } else {
            assert((ra + rb).push(b.last()) =~= ra + rb.push(b.last()));
        }
    }
}

proof fn lemma_replace_absent(s: Seq<char>, c: char, t: Seq<char>)
    requires
        forall|k: int| 0 <= k < s.len() ==> s[k] != c,
    ensures
        replace_char_seq(s, c, t) == s,
    decreases s.len(),
{
    if s.len() > 0 {
        lemma_replace_absent(s.drop_last(), c, t);
        assert(s.drop_last().push(s.last()) =~= s);
    }
}

proof fn lemma_replace_one(c: char, d: char, t: Seq<char>)
    ensures
        replace_char_seq(seq![c], d, t) == (if c == d { t } else { seq![c] }),
{
    let s = seq![c];
    assert(s.len() == 1 && s.last() == c);
    assert(s.drop_last() =~= Seq::<char>::empty());
    assert(replace_char_seq(s.drop_last(), d, t) =~= Seq::<char>::empty());
    assert(Seq::<char>::empty() + t =~= t);
    assert(Seq::<char>::empty().push(c) =~= s);
}

/// Escaping text `a` followed by `b` escapes each in turn.
proof fn lemma_escaped_concat(a: Seq<char>, b: Seq<char>)
    ensures
        xml_escaped(a + b) == xml_escaped(a) + xml_escaped(b),
{
    let e1 = "&amp;"@;
    let e2 = "&lt;"@;
    let e3 = "&gt;"@;
    let e4 = "&quot;"@;
    let e5 = "&apos;"@;
    lemma_replace_concat(a, b, '&', e1);
    let a1 = replace_char_seq(a, '&', e1);
    let b1 = replace_char_seq(b, '&', e1);
    lemma_replace_concat(a1, b1, '<', e2);
    let a2 = replace_char_seq(a1, '<', e2);
    let b2 = replace_char_seq(b1, '<', e2);
    lemma_replace_concat(a2, b2, '>', e3);
    let a3 = replace_char_seq(a2, '>', e3);
    let b3 = replace_char_seq(b2, '>', e3);
    lemma_replace_concat(a3, b3, '"', e4);
    let a4 = replace_char_seq(a3, '"', e4);
    let b4 = replace_char_seq(b3, '"', e4);
    lemma_replace_concat(a4, b4, '\'', e5);
}

/// Escaping one character gives `xml_char`.
proof fn lemma_escaped_char(c: char)
    ensures
        xml_escaped(seq![c]) == xml_char(c),
{
    reveal_strlit("&amp;");
    reveal_strlit("&lt;");
    reveal_strlit("&gt;");
    reveal_strlit("&quot;");
    reveal_strlit("&apos;");
    assert("&amp;"@ =~= amp_entity());
    assert("&lt;"@ =~= lt_entity());
    assert("&gt;"@ =~= gt_entity());
    assert("&quot;"@ =~= quot_entity());
    assert("&apos;"@ =~= apos_entity());
    let s0 = seq![c];
    lemma_replace_one(c, '&', "&amp;"@);
    let s1 = replace_char_seq(s0, '&', "&amp;"@);
    if c == '&' {
        lemma_replace_absent(s1, '<', "&lt;"@);
        lemma_replace_absent(s1, '>', "&gt;"@);
        lemma_replace_absent(s1, '"', "&quot;"@);
        lemma_replace_absent(s1, '\'', "&apos;"@);
    } else {
        lemma_replace_one(c, '<', "&lt;"@);
        let s2 = replace_char_seq(s1, '<', "&lt;"@);
        if c == '<' {
            lemma_replace_absent(s2, '>', "&gt;"@);
            lemma_replace_absent(s2, '"', "&quot;"@);
            lemma_replace_absent(s2, '\'', "&apos;"@);
        } else {
            lemma_replace_one(c, '>', "&gt;"@);
            let s3 = replace_char_seq(s2, '>', "&gt;"@);
            if c == '>' {
                lemma_replace_absent(s3, '"', "&quot;"@);
                lemma_replace_absent(s3, '\'', "&apos;"@);
            } else {
                lemma_replace_one(c, '"', "&quot;"@);
                let s4 = replace_char_seq(s3, '"', "&quot;"@);
                if c == '"' {
                    lemma_replace_absent(s4, '\'', "&apos;"@);
                } else {
                    lemma_replace_one(c, '\'', "&apos;"@);
                }
            }
        }
    }
}

/// Escaping a text is escaping its first character, then the rest.
proof fn lemma_escaped_first(s: Seq<char>)
    requires
        s.len() > 0,
    ensures
        xml_escaped(s) == xml_char(s[0]) + xml_escaped(s.drop_first()),
{
    assert(seq![s[0]] + s.drop_first() =~= s);
    lemma_escaped_concat(seq![s[0]], s.drop_first());
    lemma_escaped_char(s[0]);
}

/// Escaping a text is escaping all but its last character, then the last.
proof fn lemma_escaped_last(s: Seq<char>)
    requires
        s.len() > 0,
    ensures
        xml_escaped(s) == xml_escaped(s.drop_last()) + xml_char(s.last()),
{
    assert(s.drop_last() + seq![s.last()] =~= s);
    lemma_escaped_concat(s.drop_last(), seq![s.last()]);
    lemma_escaped_char(s.last());
}

/// Unescaping reads back the character that `xml_char` escaped.
proof fn lemma_unescape_char(c: char, x: Seq<char>)
    ensures
        xml_unescaped(xml_char(c) + x) == seq![c] + xml_unescaped(x),
{
    let y = xml_char(c) + x;
    let e = xml_char(c);
    assert(y.subrange(0, e.len() as int) =~= e);
    assert(y.skip(e.len() as int) =~= x);
    assert(y[0] == e[0]);
    if c == '&' {
    } else if c == '<' {
        assert(y[1] == 'l');
        assert(y.len() >= 5 ==> y.subrange(0, 5)[1] == 'l');
    } else if c == '>' {
        assert(y[1] == 'g');
        assert(y.len() >= 5 ==> y.subrange(0, 5)[1] == 'g');
        assert(y.subrange(0, 4)[1] == 'g');
    } else if c == '"' {
        assert(y[1] == 'q');
        assert(y.subrange(0, 5)[1] == 'q');
        assert(y.subrange(0, 4)[1] == 'q');
    } else if c == '\'' {
        assert(y[1] == 'a' && y[2] == 'p');
        assert(y.subrange(0, 5)[2] == 'p');
        assert(y.subrange(0, 4)[1] == 'a');
        assert(y.subrange(0, 6)[1] == 'a');
    } else {
        assert(y[0] == c && c != '&');
        assert(y.len() >= 4 ==> y.subrange(0, 4)[0] == c);
        assert(y.len() >= 5 ==> y.subrange(0, 5)[0] == c);
        assert(y.len() >= 6 ==> y.subrange(0, 6)[0] == c);
        assert(y.drop_first() =~= x);
        assert(seq![y[0]] =~= seq![c]);
    }
}

/// A prefix of `a` is a prefix of `a + b`.
proof fn lemma_prefix_extends(a: Seq<char>, b: Seq<char>, e: Seq<char>)
    requires
        starts_with_seq(a, e),
    ensures
        starts_with_seq(a + b, e),
{
    assert((a + b).subrange(0, e.len() as int) =~= a.subrange(0, e.len() as int));
}

/// Law: unescaping escaped text gives the text back.
pub proof fn law_xml_escape_round_trip(s: Seq<char>)
    ensures
        xml_unescaped(xml_escaped(s)) == s,
    decreases s.len(),
{
    if s.len() == 0 {
        assert(xml_escaped(s) =~= Seq::<char>::empty());
    } else {
        lemma_escaped_first(s);
        law_xml_escape_round_trip(s.drop_first());
        lemma_unescape_char(s[0], xml_escaped(s.drop_first()));
        assert(seq![s[0]] + s.drop_first() =~= s);
    }
}

/// Law: escaping text `a` followed by `b` is escaping each and joining them.
pub proof fn law_xml_escape_concat(a: Seq<char>, b: Seq<char>)
    ensures
        xml_escaped(a + b) == xml_escaped(a) + xml_escaped(b),
{
    lemma_escaped_concat(a, b);
}

/// Law: every `&` of escaped text begins one of the five entities.
pub proof fn law_xml_escaped_entities(s: Seq<char>)
    ensures
        forall|k: int| 0 <= k < xml_escaped(s).len() && #[trigger] xml_escaped(s)[k] == '&' ==> entity_at(xml_escaped(s), k),
    decreases s.len(),
{
    if s.len() == 0 {
        assert(xml_escaped(s) =~= Seq::<char>::empty());
    } else {
        let p = s.drop_last();
        law_xml_escaped_entities(p);
        lemma_escaped_last(s);
        let ep = xml_escaped(p);
        let e = xml_char(s.last());
        let es = xml_escaped(s);
        assert forall|k: int| 0 <= k < es.len() && #[trigger] es[k] == '&' implies entity_at(es, k) by {
            if k < ep.len() {
                assert(es[k] == ep[k]);
                assert(es.skip(k) =~= ep.skip(k) + e);
                let t = ep.skip(k);
                if starts_with_seq(t, amp_entity()) {
                    lemma_prefix_extends(t, e, amp_entity());
                } else if starts_with_seq(t, lt_entity()) {
                    lemma_prefix_extends(t, e, lt_entity());
                } else if starts_with_seq(t, gt_entity()) {
                    lemma_prefix_extends(t, e, gt_entity());
                } else if starts_with_seq(t, quot_entity()) {
                    lemma_prefix_extends(t, e, quot_entity());
                } else {
                    lemma_prefix_extends(t, e, apos_entity());
                }
            } else {
                let j = k - ep.len();
                assert(es[k] == e[j]);
                assert(j == 0);
                assert(es.skip(k) =~= e);
                assert(e.subrange(0, e.len() as int) =~= e);
            }
        }
    }
}

/// The link and guid of an item in the feed of `lang`, as they stand in it.
pub open spec fn item_link_text(link: Seq<char>) -> Seq<char> {
    link + "</link>\n    <guid isPermaLink=\"true\">"@ + link
}

/// Law: an item of the English feed links (and, as its guid, names) the
/// post's English page under its English slug, whenever the post has one.
pub proof fn law_english_item_uses_english_slug(post: PostSummary, base_url: Seq<char>, e: String)
    requires
        post.slug_en == Some(e),
    ensures
        has_substring(rss_item(post, "en"@, base_url), item_link_text(base_url + "/blog/ar/"@ + e@)),
{
    let link = base_url + "/blog/ar/"@ + e@;
    let title = or_default(post.title_en, post.title@);
    let description = or_default(post.excerpt_en, or_default(post.excerpt, Seq::empty()));
    let pub_date = match post.published_at {
        Some(t) => date_text(t, rss_date_format()),
        None => Seq::empty(),
    };
    let a = "  <item>\n    <title>"@ + xml_escaped(title) + "</title>\n    <description>"@
        + xml_escaped(description) + "</description>\n    <link>"@;
    let b = "</guid>\n    <pubDate>"@ + pub_date + "</pubDate>\n    <author>"@ + xml_escaped(post.author_name@)
        + "</author>\n  </item>\n"@;
    assert(rss_item(post, "en"@, base_url) =~= a + item_link_text(link) + b);
    lemma_occurs_between(a, item_link_text(link), b);
}

/// Law: an item of the Indonesian feed links (and, as its guid, names) the
/// post's Indonesian page.
pub proof fn law_indonesian_item_uses_slug(post: PostSummary, lang: Seq<char>, base_url: Seq<char>)
    requires
        lang != "en"@,
    ensures
        has_substring(rss_item(post, lang, base_url), item_link_text(base_url + "/blog/"@ + post.slug@)),
{
    let link = base_url + "/blog/"@ + post.slug@;
    let pub_date = match post.published_at {
        Some(t) => date_text(t, rss_date_format()),
        None => Seq::empty(),
    };
    let a = "  <item>\n    <title>"@ + xml_escaped(post.title@) + "</title>\n    <description>"@
        + xml_escaped(or_default(post.excerpt, Seq::empty())) + "</description>\n    <link>"@;
    let b = "</guid>\n    <pubDate>"@ + pub_date + "</pubDate>\n    <author>"@ + xml_escaped(post.author_name@)
        + "</author>\n  </item>\n"@;
    assert(rss_item(post, lang, base_url) =~= a + item_link_text(link) + b);
    lemma_occurs_between(a, item_link_text(link), b);
}

/// Law: an item's title is the post's English title in the English feed
/// (its Indonesian title when it has none) and its Indonesian title in the
/// other feed, XML-escaped.
pub proof fn law_item_title(post: PostSummary, lang: Seq<char>, base_url: Seq<char>)
    ensures
        lang == "en"@ ==> starts_with_seq(
            rss_item(post, lang, base_url),
            "  <item>\n    <title>"@ + xml_escaped(or_default(post.title_en, post.title@)),
        ),
        lang != "en"@ ==> starts_with_seq(rss_item(post, lang, base_url), "  <item>\n    <title>"@ + xml_escaped(post.title@)),
{
    let title = if lang == "en"@ { or_default(post.title_en, post.title@) } else { post.title@ };
    let p = "  <item>\n    <title>"@ + xml_escaped(title);
    lemma_occurs_at_end(Seq::<char>::empty(), p);
    assert(Seq::<char>::empty() + p =~= p);
    lemma_occurs_extends(p, 0);
    assert(occurs_at(rss_item(post, lang, base_url), p, 0));
}

/// The cache key of the feed of `lang`.
pub fn feed_cache_key(lang: &str) -> (r: String)
    ensures
        r@ == "blog:feed:"@ + lang@,
{
    let mut r = owned("blog:feed:");
    r.append(lang);
    r
}

/// How long a rendered feed stays cached, in seconds (12 hours).
pub const FEED_CACHE_TTL_SECS: u64 = 43200;

/// The content type of the feed.
pub fn rss_content_type() -> (r: &'static str)
    ensures
        r@ == "application/rss+xml; charset=utf-8"@,
{
    "application/rss+xml; charset=utf-8"
}

/// Escapes text for XML content.
pub fn escape_xml(s: &str) -> (r: String)
    ensures
        r@ == xml_escaped(s@),
{
    let a = replace_char(s, '&', "&amp;");
    let b = replace_char(a.as_str(), '<', "&lt;");
    let c = replace_char(b.as_str(), '>', "&gt;");
    let d = replace_char(c.as_str(), '"', "&quot;");
    replace_char(d.as_str(), '\'', "&apos;")
}

fn opt_text<'a>(o: &'a Option<String>, d: &'a str) -> (r: &'a str)
    ensures
        r@ == or_default(*o, d@),
{
    match o {
        Some(s) => s.as_str(),
        None => d,
    }
}

/// The `<item>` element of one post.
pub fn rss_item_text(post: &PostSummary, lang: &str, base_url: &str) -> (r: String)
    ensures
        r@ == rss_item(*post, lang@, base_url@),
{
    proof {
        reveal_strlit("%a, %d %b %Y %H:%M:%S GMT");
        reveal_strlit("");
        assert(""@ =~= Seq::<char>::empty());
    }
    let en = eq_str(lang, "en");
    let title = if en { opt_text(&post.title_en, post.title.as_str()) } else { post.title.as_str() };
    let description = if en {
        opt_text(&post.excerpt_en, opt_text(&post.excerpt, ""))
    } else {
        opt_text(&post.excerpt, "")
    };
    let mut link = owned(base_url);
    if en {
        link.append("/blog/ar/");
        link.append(opt_text(&post.slug_en, post.slug.as_str()));
    } else {
        link.append("/blog/");
        link.append(post.slug.as_str());
    }
    let pub_date = match post.published_at {
        Some(t) => format_date(t, "%a, %d %b %Y %H:%M:%S GMT"),
        None => String::new(),
    };
    let mut r = owned("  <item>\n    <title>");
    let t = escape_xml(title);
    r.append(t.as_str());
    r.append("</title>\n    <description>");
    let d = escape_xml(description);
    r.append(d.as_str());
    r.append("</description>\n    <link>");
    r.append(link.as_str());
    r.append("</link>\n    <guid isPermaLink=\"true\">");
    r.append(link.as_str());
    r.append("</guid>\n    <pubDate>");
    r.append(pub_date.as_str());
    r.append("</pubDate>\n    <author>");
    let a = escape_xml(post.author_name.as_str());
    r.append(a.as_str());
    r.append("</author>\n  </item>\n");
    r
}

/// The RSS document of `posts` for `lang` (`en` for the English feed, any
/// other value for the Indonesian one), built at time `now` (Unix seconds).
pub fn render_rss(posts: &Vec<PostSummary>, lang: &str, base_url: &str, now: i64) -> (r: String)
    ensures
        r@ == rss_document(posts@, lang@, base_url@, now),
{
    proof {
        reveal_strlit("%a, %d %b %Y %H:%M:%S GMT");
    }
    let en = eq_str(lang, "en");
    let title = if en { "Jagad Shalawat Blog" } else { "Blog Jagad Shalawat" };
    let description = if en {
        "Articles about digital payment technology, sharia-compliant payments, and automated billing."
    } else {
        "Artikel seputar teknologi pembayaran digital, pembayaran syariah, dan penagihan otomatis."
    };
    let mut link = owned(base_url);
    if en {
        link.append("/blog/ar");
    } else {
        link.append("/blog");
    }
    let lang_code = if en { "en-us" } else { "id" };
    let now_text = format_date(now, "%a, %d %b %Y %H:%M:%S GMT");
    let mut xml = owned("<?xml version=\"1.0\" encoding=\"UTF-8\"?>\n<rss version=\"2.0\" xmlns:atom=\"http://www.w3.org/2005/Atom\">\n<channel>\n  <title>");
    let t = escape_xml(title);
    xml.append(t.as_str());
    xml.append("</title>\n  <description>");
    let d = escape_xml(description);
    xml.append(d.as_str());
    xml.append("</description>\n  <link>");
    xml.append(link.as_str());
    xml.append("</link>\n  <atom:link href=\"");
    xml.append(link.as_str());
    xml.append("/feed.xml\" rel=\"self\" type=\"application/rss+xml\"/>\n  <language>");
    xml.append(lang_code);
    xml.append("</language>\n  <lastBuildDate>");
    xml.append(now_text.as_str());
    xml.append("</lastBuildDate>\n  <generator>Jagad Shalawat Blog Engine (Rust)</generator>\n");
    let ghost header = xml@;
    assert(header == rss_header(lang@, base_url@, now));
    let ghost items = rss_items(posts@, lang@, base_url@);
    let mut i: usize = 0;
    while i < posts.len()
        invariant
            i <= posts@.len(),
            items == rss_items(posts@, lang@, base_url@),
            xml@ == header + concat_seqs(items.take(i as int)),
        decreases posts.len() - i,
    {
        let item = rss_item_text(&posts[i], lang, base_url);
        proof {
            assert(items.take(i + 1).drop_last() =~= items.take(i as int));
            assert(items.take(i + 1).last() == item@);
        }
        xml.append(item.as_str());
        i = i + 1;
    }
    assert(items.take(posts@.len() as int) =~= items);
    xml.append("</channel>\n</rss>\n");
    xml
}

} // verus!
