//! The XML sitemap of the blog.
use vstd::prelude::*;

use crate::dates::{date_text, format_date};
use crate::text::{concat_seqs, has_substring, lemma_occurs_at_end, lemma_occurs_extends, occurs_at, owned};

verus! {

/// The day format of `<lastmod>`.
pub open spec fn day_format() -> Seq<char> {
    "%Y-%m-%d"@
}

/// The document head and the two listing pages (Indonesian and English).
pub open spec fn sitemap_head(base: Seq<char>) -> Seq<char> {
    "<?xml version=\"1.0\" encoding=\"UTF-8\"?>\n<urlset xmlns=\"http://www.sitemaps.org/schemas/sitemap/0.9\"\n        xmlns:xhtml=\"http://www.w3.org/1999/xhtml\">\n"@
        + "  <url>\n    <loc>"@ + base + "/blog</loc>\n    <xhtml:link rel=\"alternate\" hreflang=\"id\" href=\""@
        + base + "/blog\"/>\n    <xhtml:link rel=\"alternate\" hreflang=\"en\" href=\""@ + base
        + "/blog/ar\"/>\n    <changefreq>daily</changefreq>\n    <priority>0.8</priority>\n  </url>\n  <url>\n    <loc>"@
        + base + "/blog/ar</loc>\n    <xhtml:link rel=\"alternate\" hreflang=\"id\" href=\""@ + base
        + "/blog\"/>\n    <xhtml:link rel=\"alternate\" hreflang=\"en\" href=\""@ + base
        + "/blog/ar\"/>\n    <changefreq>daily</changefreq>\n    <priority>0.8</priority>\n  </url>\n"@
}

/// The `<url>` entries of one published post: its Indonesian page and, when
/// it has an English slug, its English page, each naming the other. The last
/// modification is the publication day, or the day of `now` when unpublished.
pub open spec fn sitemap_entry(entry: (String, Option<String>, Option<i64>), base: Seq<char>, now: i64) -> Seq<char> {
    let slug = entry.0@;
    let lastmod = match entry.2 {
        Some(t) => date_text(t, day_format()),
        None => date_text(now, day_format()),
    };
    let id_part = "  <url>\n    <loc>"@ + base + "/blog/"@ + slug + "</loc>\n    <lastmod>"@ + lastmod
        + "</lastmod>\n    <xhtml:link rel=\"alternate\" hreflang=\"id\" href=\""@ + base + "/blog/"@
        + slug + "\"/>\n"@;
    let close = "    <changefreq>monthly</changefreq>\n    <priority>0.7</priority>\n  </url>\n"@;
    match entry.1 {
        Some(en) => id_part + "    <xhtml:link rel=\"alternate\" hreflang=\"en\" href=\""@ + base
            + "/blog/ar/"@ + en@ + "\"/>\n"@ + close + "  <url>\n    <loc>"@ + base + "/blog/ar/"@
            + en@ + "</loc>\n    <lastmod>"@ + lastmod
            + "</lastmod>\n    <xhtml:link rel=\"alternate\" hreflang=\"id\" href=\""@ + base
            + "/blog/"@ + slug + "\"/>\n    <xhtml:link rel=\"alternate\" hreflang=\"en\" href=\""@
            + base + "/blog/ar/"@ + en@
            + "\"/>\n    <changefreq>monthly</changefreq>\n    <priority>0.7</priority>\n  </url>\n"@,
        None => id_part + close,
    }
}

/// The whole sitemap document for the published posts `(slug, English slug,
/// publication time)`.
pub open spec fn sitemap_document(entries: Seq<(String, Option<String>, Option<i64>)>, base: Seq<char>, now: i64) -> Seq<char> {
    sitemap_head(base) + concat_seqs(Seq::new(entries.len(), |i: int| sitemap_entry(entries[i], base, now)))
        + "</urlset>\n"@
}

/// The location and last-modification day of a `<url>` entry, as they stand in it.
pub open spec fn loc_lastmod_text(loc: Seq<char>, day: Seq<char>) -> Seq<char> {
    loc + "</loc>\n    <lastmod>"@ + day
}

/// Law: both entries of a published post, its Indonesian page and (when it
/// has an English slug) its English page, give the day it was published as
/// the last modification, whatever day the sitemap is built.
pub proof fn law_sitemap_lastmod_is_publication_day(
    slug: String,
    en: Option<String>,
    t: i64,
    base: Seq<char>,
    now: i64,
)
    ensures
        has_substring(
            sitemap_entry((slug, en, Some(t)), base, now),
            loc_lastmod_text(base + "/blog/"@ + slug@, date_text(t, day_format())),
        ),
        en matches Some(e) ==> has_substring(
            sitemap_entry((slug, en, Some(t)), base, now),
            loc_lastmod_text(base + "/blog/ar/"@ + e@, date_text(t, day_format())),
        ),
{
    let entry = (slug, en, Some(t));
    let sl = slug@;
    let lastmod = date_text(t, day_format());
    let a = "  <url>\n    <loc>"@;
    let q1 = a + base + "/blog/"@ + sl + "</loc>\n    <lastmod>"@ + lastmod;
    let p1 = loc_lastmod_text(base + "/blog/"@ + sl, lastmod);
    assert(q1 =~= a + p1);
    lemma_occurs_at_end(a, p1);
    lemma_occurs_extends(p1, a.len() as int);
    assert(occurs_at(sitemap_entry(entry, base, now), p1, a.len() as int));
    if let Some(e) = en {
        let id_part = "  <url>\n    <loc>"@ + base + "/blog/"@ + sl + "</loc>\n    <lastmod>"@ + lastmod
            + "</lastmod>\n    <xhtml:link rel=\"alternate\" hreflang=\"id\" href=\""@ + base + "/blog/"@
            + sl + "\"/>\n"@;
        let close = "    <changefreq>monthly</changefreq>\n    <priority>0.7</priority>\n  </url>\n"@;
        let h = id_part + "    <xhtml:link rel=\"alternate\" hreflang=\"en\" href=\""@ + base
            + "/blog/ar/"@ + e@ + "\"/>\n"@ + close + "  <url>\n    <loc>"@;
        let q2 = h + base + "/blog/ar/"@ + e@ + "</loc>\n    <lastmod>"@ + lastmod;
        let p2 = loc_lastmod_text(base + "/blog/ar/"@ + e@, lastmod);
        assert(q2 =~= h + p2);
        lemma_occurs_at_end(h, p2);
        lemma_occurs_extends(p2, h.len() as int);
        assert(occurs_at(sitemap_entry(entry, base, now), p2, h.len() as int));
    }
}

/// The entries of one published post.
pub fn sitemap_entry_text(entry: &(String, Option<String>, Option<i64>), base: &str, now: i64) -> (r: String)
    ensures
        r@ == sitemap_entry(*entry, base@, now),
{
    proof {
        reveal_strlit("%Y-%m-%d");
    }
    let slug = entry.0.as_str();
    let lastmod = match entry.2 {
        Some(t) => format_date(t, "%Y-%m-%d"),
        None => format_date(now, "%Y-%m-%d"),
    };
    let mut r = owned("  <url>\n    <loc>");
    r.append(base);
    r.append("/blog/");
    r.append(slug);
    r.append("</loc>\n    <lastmod>");
    r.append(lastmod.as_str());
    r.append("</lastmod>\n    <xhtml:link rel=\"alternate\" hreflang=\"id\" href=\"");
    r.append(base);
    r.append("/blog/");
    r.append(slug);
    r.append("\"/>\n");
    if let Some(en) = &entry.1 {
        r.append("    <xhtml:link rel=\"alternate\" hreflang=\"en\" href=\"");
        r.append(base);
        r.append("/blog/ar/");
        r.append(en.as_str());
        r.append("\"/>\n");
    }
    r.append("    <changefreq>monthly</changefreq>\n    <priority>0.7</priority>\n  </url>\n");
    if let Some(en) = &entry.1 {
        r.append("  <url>\n    <loc>");
        r.append(base);
        r.append("/blog/ar/");
        r.append(en.as_str());
        r.append("</loc>\n    <lastmod>");
        r.append(lastmod.as_str());
        r.append("</lastmod>\n    <xhtml:link rel=\"alternate\" hreflang=\"id\" href=\"");
        r.append(base);
        r.append("/blog/");
        r.append(slug);
        r.append("\"/>\n    <xhtml:link rel=\"alternate\" hreflang=\"en\" href=\"");
        r.append(base);
        r.append("/blog/ar/");
        r.append(en.as_str());
        r.append("\"/>\n    <changefreq>monthly</changefreq>\n    <priority>0.7</priority>\n  </url>\n");
    }
    r
}

/// The cache key of the sitemap.
pub fn sitemap_cache_key() -> (r: &'static str)
    ensures
        r@ == "blog:sitemap"@,
{
    "blog:sitemap"
}

/// How long the rendered sitemap stays cached, in seconds (12 hours).
pub const SITEMAP_CACHE_TTL_SECS: u64 = 43200;

/// The content type of the sitemap.
pub fn sitemap_content_type() -> (r: &'static str)
    ensures
        r@ == "application/xml; charset=utf-8"@,
{
    "application/xml; charset=utf-8"
}

/// The sitemap document of the published posts, at time `now` (Unix seconds).
pub fn render_sitemap(entries: &Vec<(String, Option<String>, Option<i64>)>, base: &str, now: i64) -> (r: String)
    ensures
        r@ == sitemap_document(entries@, base@, now),
{
    let mut xml = owned("<?xml version=\"1.0\" encoding=\"UTF-8\"?>\n<urlset xmlns=\"http://www.sitemaps.org/schemas/sitemap/0.9\"\n        xmlns:xhtml=\"http://www.w3.org/1999/xhtml\">\n");
    xml.append("  <url>\n    <loc>");
    xml.append(base);
    xml.append("/blog</loc>\n    <xhtml:link rel=\"alternate\" hreflang=\"id\" href=\"");
    xml.append(base);
    xml.append("/blog\"/>\n    <xhtml:link rel=\"alternate\" hreflang=\"en\" href=\"");
    xml.append(base);
    xml.append("/blog/ar\"/>\n    <changefreq>daily</changefreq>\n    <priority>0.8</priority>\n  </url>\n  <url>\n    <loc>");
    xml.append(base);
    xml.append("/blog/ar</loc>\n    <xhtml:link rel=\"alternate\" hreflang=\"id\" href=\"");
    xml.append(base);
    xml.append("/blog\"/>\n    <xhtml:link rel=\"alternate\" hreflang=\"en\" href=\"");
    xml.append(base);
    xml.append("/blog/ar\"/>\n    <changefreq>daily</changefreq>\n    <priority>0.8</priority>\n  </url>\n");
    let ghost head = xml@;
    assert(head == sitemap_head(base@));
    let ghost parts = Seq::new(entries@.len(), |i: int| sitemap_entry(entries@[i], base@, now));
    let mut i: usize = 0;
    while i < entries.len()
        invariant
            i <= entries@.len(),
            parts == Seq::new(entries@.len(), |i: int| sitemap_entry(entries@[i], base@, now)),
            xml@ == head + concat_seqs(parts.take(i as int)),
        decreases entries.len() - i,
    {
        let part = sitemap_entry_text(&entries[i], base, now);
        proof {
            assert(parts.take(i + 1).drop_last() =~= parts.take(i as int));
            assert(parts.take(i + 1).last() == part@);
        }
        xml.append(part.as_str());
        i = i + 1;
    }
    assert(parts.take(entries@.len() as int) =~= parts);
    xml.append("</urlset>\n");
    xml
}

} // verus!
