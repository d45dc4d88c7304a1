//! The post editor: how the editor's form becomes the stored post (slug,
//! rendered HTML, reading time, excerpt, tags and sources JSON, English
//! fields), publication times, and cache invalidation.
use vstd::prelude::*;

use crate::error::AppError;
use crate::routes::auth::{parsed_url, url_parts};
use crate::services::cache::{deletes_pattern, invalidate_all_listings, invalidate_post, post_invalidation, CacheOp};
use crate::services::markdown::{
    calculate_reading_time, comrak_html, extract_first_paragraph, first_paragraph, opt_str_view, reading_minutes,
    render_markdown,
};
use crate::text::{
    blank, eq_str, find_char, first_index, from_chars_range, is_blank, opt_view,
    owned, split_char, split_on, strip_char, strip_end_char, strip_prefix_all, strip_prefix_repeated,
    strip_start_char, strip_start_end, trim, trim_chars, trim_seq, words,
};

verus! {

/// The query of the post list.
pub struct PostQuery {
    pub status: Option<String>,
    pub page: Option<u32>,
}

/// The post editor's form.
pub struct PostForm {
    pub title: String,
    pub slug: Option<String>,
    pub content_markdown: String,
    pub title_en: Option<String>,
    pub slug_en: Option<String>,
    pub excerpt_en: Option<String>,
    pub content_markdown_en: Option<String>,
    pub meta_description: Option<String>,
    pub meta_description_en: Option<String>,
    pub excerpt: Option<String>,
    pub category: Option<String>,
    pub tags: Option<String>,
    pub sources: Option<String>,
    pub source_url: Option<String>,
    pub source_name: Option<String>,
    pub featured_image: Option<String>,
    pub status: Option<String>,
}

/// A source of a post: a title and a URL.
#[derive(Debug, Clone)]
pub struct SourceItem {
    pub title: String,
    pub url: String,
}

/// The values the editor computes from the form before storing a post.
pub struct PreparedPost {
    pub slug: String,
    pub content_html: String,
    pub reading_time: u8,
    pub excerpt: String,
    pub status: String,
    pub tags_json: Option<String>,
    pub sources_json: Option<String>,
    pub title_en: Option<String>,
    pub slug_en: Option<String>,
    pub excerpt_en: Option<String>,
    pub content_markdown_en: Option<String>,
    pub content_html_en: Option<String>,
    pub meta_description_en: Option<String>,
}

/// The English fields of a machine translation.
pub struct Translation {
    pub slug_en: String,
    pub content_markdown_en: String,
    pub content_html_en: String,
}

/// What the slug crate makes of `s`.
pub uninterp spec fn slug_of(s: Seq<char>) -> Seq<char>;

/// What serde_json writes for the list of strings `items` (a `Vec<String>`).
pub uninterp spec fn json_strings(items: Seq<Seq<char>>) -> Seq<char>;

/// What serde_json writes for the list of sources `items`, each a record
/// whose fields `title` and `url` are the pair's two texts.
pub uninterp spec fn json_sources(items: Seq<(Seq<char>, Seq<char>)>) -> Seq<char>;

/// serde_json's compact text of the JSON value `t` when `t` parses as a JSON
/// array; `None` when it does not parse or is not an array.
pub uninterp spec fn json_array_text(t: Seq<char>) -> Option<Seq<char>>;

/// slug: `slug::slugify`. The contract names the slug; it states nothing of its characters.
#[verifier::external_body]
fn slugify(s: &str) -> (r: String)
    ensures
        r@ == slug_of(s@),
{
    slug::slugify(s)
}

/// serde_json: `serde_json::to_string` of a `Vec<String>` (the empty text
/// should serialisation fail, which it does not for strings).
#[verifier::external_body]
fn json_encode_strings(items: &Vec<String>) -> (r: String)
    ensures
        r@ == json_strings(items@.map_values(|t: String| t@)),
{
    match serde_json::to_string(items) {
        Ok(t) => t,
        Err(_) => String::new(),
    }
}

/// serde_json: `serde_json::to_string` of the sources, each pair given to it
/// as a map with the keys `title` and `url` (serde_json writes a map's keys
/// in sorted order, which is the record's field order). The empty text should
/// serialisation fail, which it does not for strings.
#[verifier::external_body]
fn json_encode_sources(items: &Vec<(String, String)>) -> (r: String)
    ensures
        r@ == json_sources(items@.map_values(|p: (String, String)| (p.0@, p.1@))),
{
    let records: Vec<std::collections::BTreeMap<&str, &str>> = items
        .iter()
        .map(|(t, u)| std::collections::BTreeMap::from([("title", t.as_str()), ("url", u.as_str())]))
        .collect();
    match serde_json::to_string(&records) {
        Ok(t) => t,
        Err(_) => String::new(),
    }
}

/// serde_json: `from_str::<Value>(t)`; for an array, the value's compact
/// `to_string`, else `None`.
#[verifier::external_body]
fn reencode_json_array(t: &str) -> (r: Option<String>)
    ensures
        opt_view(r) == json_array_text(t@),
{
    match serde_json::from_str::<serde_json::Value>(t) {
        Ok(serde_json::Value::Array(a)) => Some(serde_json::Value::Array(a).to_string()),
        _ => None,
    }
}

/// The text of an optional field when it is given and not blank.
pub open spec fn non_blank(o: Option<String>) -> Option<Seq<char>> {
    match o {
        Some(s) => if is_blank(s@) { None } else { Some(s@) },
        None => None,
    }
}

/// One tag of the comma-separated list: trimmed, then stripped of double and
/// single quotes, then trimmed again.
pub open spec fn tag_text(piece: Seq<char>) -> Seq<char> {
    trim_seq(strip_char(strip_char(trim_seq(piece), '"'), '\''))
}

/// The non-empty tags of the pieces, in order.
pub open spec fn tag_list(pieces: Seq<Seq<char>>) -> Seq<Seq<char>>
    decreases pieces.len(),
{
    if pieces.len() == 0 {
        seq![]
    } else {
        let rest = tag_list(pieces.drop_last());
        let t = tag_text(pieces.last());
        if t.len() > 0 {
            rest.push(t)
        } else {
            rest
        }
    }
}

/// Law: the tags of a list of pieces are the tags of the pieces, in order,
/// with the empty ones left out, none other dropped; so one more piece adds
/// its tag at the end exactly when that tag is not empty.
pub proof fn law_tags_keep_every_piece(ps: Seq<Seq<char>>, p: Seq<char>)
    ensures
        tag_list(ps) == ps.map_values(|x: Seq<char>| tag_text(x)).filter(|t: Seq<char>| t.len() > 0),
        tag_text(p).len() > 0 ==> tag_list(ps.push(p)) == tag_list(ps).push(tag_text(p)),
        tag_text(p).len() == 0 ==> tag_list(ps.push(p)) == tag_list(ps),
    decreases ps.len(),
{
    reveal(Seq::filter);
    assert(ps.push(p).drop_last() =~= ps);
    if ps.len() > 0 {
        law_tags_keep_every_piece(ps.drop_last(), ps.last());
        let m = ps.map_values(|x: Seq<char>| tag_text(x));
        assert(m.drop_last() =~= ps.drop_last().map_values(|x: Seq<char>| tag_text(x)));
        assert(m.last() == tag_text(ps.last()));
    } else {
        assert(ps.map_values(|x: Seq<char>| tag_text(x)) =~= Seq::<Seq<char>>::empty());
    }
}

/// The tags JSON of the form's tag field: the field (with surrounding `[`
/// and `]` removed) split at commas into trimmed, unquoted, non-empty tags;
/// `None` when the field is absent, blank, or has no tag.
pub open spec fn tags_json(raw: Option<Seq<char>>) -> Option<Seq<char>> {
    match raw {
        None => None,
        Some(r) => {
            let t = trim_seq(r);
            if t.len() == 0 {
                None
            } else {
                let tags = tag_list(split_on(strip_end_char(strip_start_char(t, '['), ']'), ','));
                if tags.len() == 0 {
                    None
                } else {
                    Some(json_strings(tags))
                }
            }
        },
    }
}

/// The source written on one line: `title | url`, or a bare URL whose host
/// (without leading `www.`) is the title, or the line itself when it has no host.
pub open spec fn source_of_line(l: Seq<char>) -> (Seq<char>, Seq<char>) {
    let bar = first_index(l, '|');
    if bar < l.len() {
        (trim_seq(l.take(bar)), trim_seq(l.skip(bar + 1)))
    } else {
        let title = match parsed_url(l) {
            Some(u) => match u.0 {
                Some(h) => strip_prefix_all(h, "www."@),
                None => l,
            },
            None => l,
        };
        (title, l)
    }
}

/// The sources of the non-blank lines, in order.
pub open spec fn source_list(lines: Seq<Seq<char>>) -> Seq<(Seq<char>, Seq<char>)>
    decreases lines.len(),
{
    if lines.len() == 0 {
        seq![]
    } else {
        let rest = source_list(lines.drop_last());
        let l = trim_seq(lines.last());
        if l.len() == 0 {
            rest
        } else {
            rest.push(source_of_line(l))
        }
    }
}

/// Law: the sources of a list of lines are those of the lines that are not
/// blank once trimmed, one per such line, in order; none is dropped.
pub proof fn law_sources_keep_every_line(ls: Seq<Seq<char>>)
    ensures
        source_list(ls) == ls.map_values(|l: Seq<char>| trim_seq(l)).filter(|l: Seq<char>| l.len() > 0).map_values(
            |l: Seq<char>| source_of_line(l),
        ),
    decreases ls.len(),
{
    reveal(Seq::filter);
    let m = ls.map_values(|l: Seq<char>| trim_seq(l));
    if ls.len() > 0 {
        law_sources_keep_every_line(ls.drop_last());
        assert(m.drop_last() =~= ls.drop_last().map_values(|l: Seq<char>| trim_seq(l)));
        assert(m.last() == trim_seq(ls.last()));
        let f = m.drop_last().filter(|l: Seq<char>| l.len() > 0);
        if trim_seq(ls.last()).len() > 0 {
            assert(f.push(m.last()).map_values(|l: Seq<char>| source_of_line(l))
                =~= f.map_values(|l: Seq<char>| source_of_line(l)).push(source_of_line(m.last())));
        }
    } else {
        assert(m =~= Seq::<Seq<char>>::empty());
    }
}

/// The sources JSON of the form's sources field: a JSON array is kept (in
/// compact form); otherwise one source per non-blank line; `None` when the
/// field is absent, blank, or has no source.
pub open spec fn sources_json(raw: Option<Seq<char>>) -> Option<Seq<char>> {
    match raw {
        None => None,
        Some(r) => {
            let t = trim_seq(r);
            if t.len() == 0 {
                None
            } else if json_array_text(t) is Some {
                json_array_text(t)
            } else {
                let items = source_list(split_on(t, '\n'));
                if items.len() == 0 {
                    None
                } else {
                    Some(json_sources(items))
                }
            }
        },
    }
}

fn opt_ref<'a>(o: &'a Option<String>) -> (r: Option<&'a str>)
    ensures
        crate::services::markdown::opt_str_view(r) == opt_view(*o),
{
    match o {
        Some(s) => Some(s.as_str()),
        None => None,
    }
}

/// The tags field as JSON.
pub fn parse_tags_json(raw: Option<&str>) -> (r: Option<String>)
    ensures
        opt_view(r) == tags_json(crate::services::markdown::opt_str_view(raw)),
{
    let raw = match raw {
        Some(x) => x,
        None => return None,
    };
    let t = trim(raw);
    if t.as_str().is_empty() {
        return None;
    }
    let cleaned = strip_start_end(t.as_str(), '[', ']');
    let pieces = split_char(cleaned.as_str(), ',');
    let ghost all = split_on(cleaned@, ',');
    let mut tags: Vec<String> = Vec::new();
    let mut i: usize = 0;
    while i < pieces.len()
        invariant
            i <= pieces@.len() == all.len(),
            all == split_on(cleaned@, ','),
            forall|k: int| 0 <= k < pieces@.len() ==> (#[trigger] pieces@[k])@ == all[k],
            tags@.map_values(|p: String| p@) == tag_list(all.take(i as int)),
        decreases pieces.len() - i,
    {
        proof {
            assert(all.take(i + 1).drop_last() =~= all.take(i as int));
            assert(all.take(i + 1).last() == all[i as int]);
        }
        let a = trim_chars(&pieces[i]);
        let b = strip_start_end(a.as_str(), '"', '"');
        let c = strip_start_end(b.as_str(), '\'', '\'');
        let d = trim(c.as_str());
        if !d.as_str().is_empty() {
            let ghost before = tags@;
            tags.push(d);
            assert(tags@.map_values(|p: String| p@) =~= before.map_values(|p: String| p@).push(tags@.last()@));
        }
        i = i + 1;
    }
    assert(all.take(all.len() as int) =~= all);
    if tags.len() == 0 {
        return None;
    }
    Some(json_encode_strings(&tags))
}

/// The source of one non-blank, trimmed line.
fn line_source(l: &str) -> (r: (String, String))
    ensures
        (r.0@, r.1@) == source_of_line(l@),
{
    let v = crate::text::to_chars(l);
    let bar = find_char(&v, '|');
    if bar < v.len() {
        let left = from_chars_range(&v, 0, bar);
        let right = from_chars_range(&v, bar + 1, v.len());
        assert(v@.subrange(0, bar as int) =~= l@.take(bar as int));
        assert(v@.subrange(bar + 1, v@.len() as int) =~= l@.skip(bar + 1));
        (trim(left.as_str()), trim(right.as_str()))
    } else {
        let title = match url_parts(l) {
            Some((Some(h), _)) => strip_prefix_repeated(h.as_str(), "www."),
            _ => owned(l),
        };
        (title, owned(l))
    }
}

/// The sources field as JSON.
pub fn parse_sources_json(raw: Option<&str>) -> (r: Option<String>)
    ensures
        opt_view(r) == sources_json(crate::services::markdown::opt_str_view(raw)),
{
    let raw = match raw {
        Some(x) => x,
        None => return None,
    };
    let t = trim(raw);
    if t.as_str().is_empty() {
        return None;
    }
    if let Some(a) = reencode_json_array(t.as_str()) {
        return Some(a);
    }
    let lines = split_char(t.as_str(), '\n');
    let ghost all = split_on(t@, '\n');
    let mut items: Vec<(String, String)> = Vec::new();
    let mut i: usize = 0;
    while i < lines.len()
        invariant
            i <= lines@.len() == all.len(),
            all == split_on(t@, '\n'),
            forall|k: int| 0 <= k < lines@.len() ==> (#[trigger] lines@[k])@ == all[k],
            items@.map_values(|p: (String, String)| (p.0@, p.1@)) == source_list(all.take(i as int)),
        decreases lines.len() - i,
    {
        proof {
            assert(all.take(i + 1).drop_last() =~= all.take(i as int));
            assert(all.take(i + 1).last() == all[i as int]);
        }
        let l = trim_chars(&lines[i]);
        if !l.as_str().is_empty() {
            let item = line_source(l.as_str());
            let ghost before = items@;
            items.push(item);
            assert(items@.map_values(|p: (String, String)| (p.0@, p.1@))
                =~= before.map_values(|p: (String, String)| (p.0@, p.1@)).push((item.0@, item.1@)));
        }
        i = i + 1;
    }
    assert(all.take(all.len() as int) =~= all);
    if items.len() == 0 {
        return None;
    }
    Some(json_encode_sources(&items))
}

fn keep_non_blank(o: &Option<String>) -> (r: Option<String>)
    ensures
        opt_view(r) == non_blank(*o),
{
    match o {
        Some(s) => if blank(s.as_str()) { None } else { Some(s.clone()) },
        None => None,
    }
}

/// The slug of a post: the form's slug when not blank, else the title's slug.
pub open spec fn post_slug(form: PostForm) -> Seq<char> {
    match non_blank(form.slug) {
        Some(s) => s,
        None => slug_of(form.title@),
    }
}

/// The HTML of Markdown as the editor renders it.
pub open spec fn editor_html(md: Seq<char>) -> Seq<char> {
    comrak_html(md, true, true, true, true, Some(Seq::<char>::empty()))
}

/// Computes the stored values of a post from the editor's form: slug (given
/// or from the title), rendered HTML, reading time (capped at 255), excerpt
/// (given, or the first paragraph of the rendered HTML), status (default
/// `draft`), tags and sources JSON, and the non-blank English fields (with
/// the English Markdown rendered).
pub fn prepare_post(form: &PostForm) -> (r: PreparedPost)
    ensures
        r.slug@ == post_slug(*form),
        r.content_html@ == editor_html(form.content_markdown@),
        r.reading_time as int == (if reading_minutes(words(form.content_markdown@).len()) > 255 { 255 } else {
            reading_minutes(words(form.content_markdown@).len()) as int
        }),
        r.excerpt@ == (match non_blank(form.excerpt) {
            Some(e) => e,
            None => first_paragraph(split_on(editor_html(form.content_markdown@), '\n')),
        }),
        r.status@ == crate::text::or_default(form.status, "draft"@),
        opt_view(r.tags_json) == tags_json(opt_view(form.tags)),
        opt_view(r.sources_json) == sources_json(opt_view(form.sources)),
        opt_view(r.title_en) == non_blank(form.title_en),
        opt_view(r.slug_en) == non_blank(form.slug_en),
        opt_view(r.excerpt_en) == non_blank(form.excerpt_en),
        opt_view(r.content_markdown_en) == non_blank(form.content_markdown_en),
        opt_view(r.content_html_en) == (match non_blank(form.content_markdown_en) {
            Some(md) => Some(editor_html(md)),
            None => None,
        }),
        opt_view(r.meta_description_en) == non_blank(form.meta_description_en),
{
    let slug = match &form.slug {
        Some(s) => if blank(s.as_str()) { slugify(form.title.as_str()) } else { s.clone() },
        None => slugify(form.title.as_str()),
    };
    let content_html = render_markdown(form.content_markdown.as_str());
    let minutes = calculate_reading_time(form.content_markdown.as_str());
    let reading_time: u8 = if minutes > 255 { 255 } else { minutes as u8 };
    let excerpt = match &form.excerpt {
        Some(e) => if blank(e.as_str()) { extract_first_paragraph(content_html.as_str()) } else { e.clone() },
        None => extract_first_paragraph(content_html.as_str()),
    };
    let status = match &form.status {
        Some(s) => s.clone(),
        None => owned("draft"),
    };
    let tags_json = parse_tags_json(opt_ref(&form.tags));
    let sources_json = parse_sources_json(opt_ref(&form.sources));
    let content_markdown_en = keep_non_blank(&form.content_markdown_en);
    let content_html_en = match &content_markdown_en {
        Some(md) => Some(render_markdown(md.as_str())),
        None => None,
    };
    PreparedPost {
        slug,
        content_html,
        reading_time,
        excerpt,
        status,
        tags_json,
        sources_json,
        title_en: keep_non_blank(&form.title_en),
        slug_en: keep_non_blank(&form.slug_en),
        excerpt_en: keep_non_blank(&form.excerpt_en),
        content_markdown_en,
        content_html_en,
        meta_description_en: keep_non_blank(&form.meta_description_en),
    }
}

/// The publication time after saving with `status`.
pub open spec fn publication_after_save(status: Seq<char>, existing: Option<i64>, now: i64) -> Option<i64> {
    if status == "published"@ && existing is None {
        Some(now)
    } else {
        existing
    }
}

/// The publication time after the publish action.
pub open spec fn publication_after_publish(existing: Option<i64>, now: i64) -> i64 {
    match existing {
        Some(t) => t,
        None => now,
    }
}

/// The publication time after saving with `status`: kept when already set;
/// `now` when the post becomes published for the first time.
pub fn publish_time(status: &str, existing: Option<i64>, now: i64) -> (r: Option<i64>)
    ensures
        r == publication_after_save(status@, existing, now),
{
    if existing.is_none() && eq_str(status, "published") {
        Some(now)
    } else {
        existing
    }
}

/// The publication time set by the publish action: the existing one, else `now`.
pub fn publish_now(existing: Option<i64>, now: i64) -> (r: i64)
    ensures
        r == publication_after_publish(existing, now),
{
    match existing {
        Some(t) => t,
        None => now,
    }
}

/// Law: once a post has a publication time, neither saving (whatever the
/// status, whenever) nor publishing again changes it; a post saved as
/// published always has one.
pub proof fn law_publication_time_is_stable(status: Seq<char>, t: i64, existing: Option<i64>, now: i64)
    ensures
        publication_after_save(status, Some(t), now) == Some(t),
        publication_after_publish(Some(t), now) == t,
        status == "published"@ ==> publication_after_save(status, existing, now) is Some,
{
}

/// The author name of a new post: the session's display name, else the team.
pub fn author_display_name(display_name: &Option<String>) -> (r: String)
    ensures
        r@ == crate::text::or_default(*display_name, "Tim Jagad Shalawat"@),
{
    match display_name {
        Some(d) => d.clone(),
        None => owned("Tim Jagad Shalawat"),
    }
}

/// The status filter of the post list: `None` for all posts (the default).
pub fn status_filter(query: &PostQuery) -> (r: Option<String>)
    ensures
        match query.status {
            Some(s) => if s@ == "all"@ { r is None } else { opt_view(r) == Some(s@) },
            None => r is None,
        },
{
    match &query.status {
        Some(s) => if eq_str(s.as_str(), "all") { None } else { Some(s.clone()) },
        None => None,
    }
}

fn append_ops(ops: &mut Vec<CacheOp>, more: Vec<CacheOp>)
    ensures
        final(ops)@ == old(ops)@ + more@,
{
    let mut more = more;
    ops.append(&mut more);
}

/// The cache operations after saving a post: the post under its new slugs,
/// the post under its old slug when that changed, and every listing.
pub fn update_invalidations(slug: &str, slug_en: Option<&str>, old_slug: &str, old_slug_en: Option<&str>) -> (r: Vec<CacheOp>)
    ensures
        ({
            let first = if slug_en is Some { 6int } else { 5int };
            let second = if old_slug@.len() > 0 && old_slug@ != slug@ {
                if old_slug_en is Some { 6int } else { 5int }
            } else {
                0int
            };
            &&& r@.len() == first + second + 1
            &&& post_invalidation(slug@, opt_str_view(slug_en), r@.take(first))
            &&& second > 0 ==> post_invalidation(old_slug@, opt_str_view(old_slug_en), r@.subrange(first, first + second))
            &&& deletes_pattern(r@[r@.len() - 1], "blog:listing:*"@)
        }),
{
    let mut ops = invalidate_post(slug, slug_en);
    let ghost first = ops@;
    if !old_slug.is_empty() && !eq_str(old_slug, slug) {
        let more = invalidate_post(old_slug, old_slug_en);
        let ghost second = more@;
        append_ops(&mut ops, more);
        assert(ops@.take(first.len() as int) =~= first);
        assert(ops@.subrange(first.len() as int, (first.len() + second.len()) as int) =~= second);
    }
    let ghost before = ops@;
    ops.push(invalidate_all_listings());
    assert(ops@.take(first.len() as int) =~= before.take(first.len() as int));
    assert(ops@.subrange(first.len() as int, before.len() as int) =~= before.subrange(first.len() as int, before.len() as int));
    ops
}

/// The cache operations after deleting or publishing a post: the post under
/// its Indonesian slug, then every listing.
pub fn removal_invalidations(slug: &str) -> (r: Vec<CacheOp>)
    ensures
        r@.len() == 6,
        post_invalidation(slug@, None, r@.take(5)),
        deletes_pattern(r@[5], "blog:listing:*"@),
{
    let mut ops = invalidate_post(slug, None);
    let ghost first = ops@;
    ops.push(invalidate_all_listings());
    assert(ops@.take(5) =~= first);
    ops
}

/// The English fields written by the translate action: the title's slug with
/// `-en`, and (until a translation service is wired in) the Markdown as it
/// is, rendered.
pub fn translation(title: &str, content_markdown: &str) -> (r: Translation)
    ensures
        r.slug_en@ == slug_of(title@) + "-en"@,
        r.content_markdown_en@ == content_markdown@,
        r.content_html_en@ == editor_html(content_markdown@),
{
    let mut slug_en = slugify(title);
    slug_en.append("-en");
    let content_markdown_en = owned(content_markdown);
    let content_html_en = render_markdown(content_markdown);
    Translation { slug_en, content_markdown_en, content_html_en }
}

/// The error of a post id with no post.
pub fn post_not_found() -> (r: AppError)
    ensures
        r matches AppError::NotFound(m) && m@ == "Artikel tidak ditemukan"@,
{
    AppError::NotFound(owned("Artikel tidak ditemukan"))
}

/// Where the editor returns after saving, deleting or publishing.
pub fn posts_location() -> (r: &'static str)
    ensures
        r@ == "/blog/admin/posts"@,
{
    "/blog/admin/posts"
}

} // verus!
