//! SEO markup: JSON-LD for articles and breadcrumbs, Open Graph tags,
//! hreflang alternates and the canonical link.
use vstd::prelude::*;

use crate::dates::{date_text, format_date, known_format};
use crate::models::post::{BlogPost, SourceValue};
use crate::text::{
    decimal, eq_str, has_substring, join, join_seq, lemma_occurs_at_end, lemma_occurs_extends, occurs_at, or_default,
    owned, replace_char, replace_char_seq, u64_to_string,
};

verus! {

/// Quotes escaped for a JSON string: `"` becomes `\"`.
pub open spec fn json_quote_escaped(s: Seq<char>) -> Seq<char> {
    replace_char_seq(s, '"', "\\\""@)
}

/// Quotes escaped for an HTML attribute: `"` becomes `&quot;`.
pub open spec fn attr_escaped(s: Seq<char>) -> Seq<char> {
    replace_char_seq(s, '"', "&quot;"@)
}

/// The quoted URLs of a post's sources: an object's `url` string or a bare
/// string; other entries are skipped.
pub open spec fn source_urls(items: Seq<SourceValue>) -> Seq<Seq<char>>
    decreases items.len(),
{
    if items.len() == 0 {
        seq![]
    } else {
        let rest = source_urls(items.drop_last());
        match items.last() {
            SourceValue::Object { url: Some(u) } => rest.push("\""@ + u@ + "\""@),
            SourceValue::Text(s) => rest.push("\""@ + s@ + "\""@),
            _ => rest,
        }
    }
}

/// The `"isBasedOn"` member of the article JSON-LD (empty without sources).
pub open spec fn is_based_on_field(sources: Option<Vec<SourceValue>>) -> Seq<char> {
    match sources {
        Some(items) => {
            let urls = source_urls(items@);
            if urls.len() > 0 {
                "\"isBasedOn\": ["@ + join_seq(urls, ","@) + "],"@
            } else {
                Seq::empty()
            }
        },
        None => Seq::empty(),
    }
}

/// The canonical URL of a post in a language (`en` or the Indonesian default).
pub open spec fn article_url(post: BlogPost, base_url: Seq<char>, lang: Seq<char>) -> Seq<char> {
    if lang == "en"@ {
        base_url + "/blog/en/"@ + or_default(post.slug_en, post.slug@)
    } else {
        base_url + "/blog/"@ + post.slug@
    }
}

/// The author shown for a post: its author, else its source, else the team.
pub open spec fn article_author(post: BlogPost) -> Seq<char> {
    if post.author_name@.len() > 0 {
        post.author_name@
    } else {
        or_default(post.source_name, "Tim Jagad Shalawat"@)
    }
}

/// The article JSON-LD script of a post.
pub open spec fn json_ld_article(post: BlogPost, base_url: Seq<char>, lang: Seq<char>) -> Seq<char> {
    let image_field = match post.featured_image {
        Some(img) => "\"image\": \""@ + img@ + "\","@,
        None => Seq::empty(),
    };
    let pub_date = match post.published_at {
        Some(t) => date_text(t, "%Y-%m-%dT%H:%M:%SZ"@),
        None => Seq::empty(),
    };
    "<script type=\"application/ld+json\">\n{\n    \"@context\": \"https://schema.org\",\n    \"@type\": \"Article\",\n    \"headline\": \""@
        + json_quote_escaped(post.title@) + "\",\n    "@ + image_field + "\n    "@
        + is_based_on_field(post.sources) + "\n    \"datePublished\": \""@ + pub_date
        + "\",\n    \"dateModified\": \""@ + date_text(post.updated_at, "%Y-%m-%dT%H:%M:%SZ"@)
        + "\",\n    \"author\": {\n        \"@type\": \"Person\",\n        \"name\": \""@
        + json_quote_escaped(article_author(post)) + "\"\n    },\n    \"description\": \""@
        + json_quote_escaped(or_default(post.excerpt, post.title@)) + "\",\n    \"url\": \""@
        + article_url(post, base_url, lang) + "\"\n}\n</script>"@
}

/// The opening of the article JSON-LD, up to the headline's value.
pub open spec fn article_opening() -> Seq<char> {
    "<script type=\"application/ld+json\">\n{\n    \"@context\": \"https://schema.org\",\n    \"@type\": \"Article\",\n    \"headline\": \""@
}

/// The key and opening quote of the author's name in the article JSON-LD.
pub open spec fn author_name_key() -> Seq<char> {
    "\",\n    \"author\": {\n        \"@type\": \"Person\",\n        \"name\": \""@
}

/// The key and opening quote of the description in the article JSON-LD.
pub open spec fn description_key() -> Seq<char> {
    "\"\n    },\n    \"description\": \""@
}

/// Law: in quote-escaped text every `"` is preceded by a backslash, so none
/// of them ends a JSON string.
pub proof fn law_json_quotes_escaped(s: Seq<char>)
    ensures
        forall|k: int| 0 <= k < json_quote_escaped(s).len() && #[trigger] json_quote_escaped(s)[k] == '"'
            ==> k > 0 && json_quote_escaped(s)[k - 1] == '\\',
    decreases s.len(),
{
    reveal_strlit("\\\"");
    let t = "\\\""@;
    assert(t.len() == 2 && t[0] == '\\' && t[1] == '"');
    if s.len() > 0 {
        let p = s.drop_last();
        law_json_quotes_escaped(p);
        let rp = json_quote_escaped(p);
        let r = json_quote_escaped(s);
        assert forall|k: int| 0 <= k < r.len() && #[trigger] r[k] == '"' implies k > 0 && r[k - 1] == '\\' by {
            if s.last() == '"' {
                assert(r =~= rp + t);
                if k < rp.len() {
                    assert(r[k] == rp[k]);
                    assert(rp[k] == '"');
                    assert(r[k - 1] == rp[k - 1]);
                } else {
                    assert(r[k] == t[k - rp.len()]);
                    assert(k - rp.len() == 1);
                    assert(r[k - 1] == t[0]);
                }
            } else {
                assert(r =~= rp.push(s.last()));
                if k < rp.len() {
                    assert(r[k] == rp[k]);
                    assert(rp[k] == '"');
                    assert(r[k - 1] == rp[k - 1]);
                } else {
                    assert(r[k] == s.last());
                }
            }
        }
    }
}

/// Law: the article JSON-LD writes the headline (the title), the author's
/// name and the description (the excerpt, else the title) each right after
/// its key, quote-escaped.
pub proof fn law_article_strings_escaped(post: BlogPost, base_url: Seq<char>, lang: Seq<char>)
    ensures
        has_substring(json_ld_article(post, base_url, lang), article_opening() + json_quote_escaped(post.title@)),
        has_substring(json_ld_article(post, base_url, lang), author_name_key() + json_quote_escaped(article_author(post))),
        has_substring(
            json_ld_article(post, base_url, lang),
            description_key() + json_quote_escaped(or_default(post.excerpt, post.title@)),
        ),
{
    let doc = json_ld_article(post, base_url, lang);
    let image_field = match post.featured_image {
        Some(img) => "\"image\": \""@ + img@ + "\","@,
        None => Seq::empty(),
    };
    let pub_date = match post.published_at {
        Some(t) => date_text(t, "%Y-%m-%dT%H:%M:%SZ"@),
        None => Seq::empty(),
    };
    let p0 = article_opening() + json_quote_escaped(post.title@);
    lemma_occurs_at_end(Seq::<char>::empty(), p0);
    assert(Seq::<char>::empty() + p0 =~= p0);
    lemma_occurs_extends(p0, 0);
    assert(occurs_at(doc, p0, 0));
    let h1 = p0 + "\",\n    "@ + image_field + "\n    "@ + is_based_on_field(post.sources)
        + "\n    \"datePublished\": \""@ + pub_date + "\",\n    \"dateModified\": \""@
        + date_text(post.updated_at, "%Y-%m-%dT%H:%M:%SZ"@);
    let p1 = author_name_key() + json_quote_escaped(article_author(post));
    assert(h1 + author_name_key() + json_quote_escaped(article_author(post)) =~= h1 + p1);
    lemma_occurs_at_end(h1, p1);
    lemma_occurs_extends(p1, h1.len() as int);
    assert(occurs_at(doc, p1, h1.len() as int));
    let h2 = h1 + author_name_key() + json_quote_escaped(article_author(post));
    let p2 = description_key() + json_quote_escaped(or_default(post.excerpt, post.title@));
    assert(h2 + description_key() + json_quote_escaped(or_default(post.excerpt, post.title@)) =~= h2 + p2);
    lemma_occurs_at_end(h2, p2);
    lemma_occurs_extends(p2, h2.len() as int);
    assert(occurs_at(doc, p2, h2.len() as int));
}

/// One list item of the breadcrumb JSON-LD (position counted from 1).
pub open spec fn breadcrumb_item(position: nat, name: Seq<char>, url: Seq<char>) -> Seq<char> {
    "{\n            \"@type\": \"ListItem\",\n            \"position\": "@ + decimal(position)
        + ",\n            \"name\": \""@ + json_quote_escaped(name) + "\",\n            \"item\": \""@
        + url + "\"\n        }"@
}

/// The breadcrumb items of `items`, positions counted from 1.
pub open spec fn breadcrumb_items(items: Seq<(String, String)>) -> Seq<Seq<char>> {
    Seq::new(items.len(), |i: int| breadcrumb_item((i + 1) as nat, items[i].0@, items[i].1@))
}

/// The breadcrumb JSON-LD script.
pub open spec fn json_ld_breadcrumb(items: Seq<(String, String)>) -> Seq<char> {
    "<script type=\"application/ld+json\">\n{\n    \"@context\": \"https://schema.org\",\n    \"@type\": \"BreadcrumbList\",\n    \"itemListElement\": ["@
        + join_seq(breadcrumb_items(items), ","@) + "]\n}\n</script>"@
}

/// The Open Graph meta tags.
pub open spec fn og_tags(title: Seq<char>, description: Seq<char>, image: Option<Seq<char>>, url: Seq<char>, locale: Seq<char>) -> Seq<char> {
    let base = "<meta property=\"og:title\" content=\""@ + attr_escaped(title)
        + "\" />\n<meta property=\"og:description\" content=\""@ + attr_escaped(description)
        + "\" />\n<meta property=\"og:url\" content=\""@ + url
        + "\" />\n<meta property=\"og:locale\" content=\""@ + locale
        + "\" />\n<meta property=\"og:type\" content=\"article\" />"@;
    match image {
        Some(img) => base + "\n<meta property=\"og:image\" content=\""@ + img + "\" />"@,
        None => base,
    }
}

/// The hreflang alternate links of a post.
pub open spec fn hreflang_tags(slug_id: Seq<char>, slug_en: Option<Seq<char>>, base_url: Seq<char>) -> Seq<char> {
    let id_url = base_url + "/blog/"@ + slug_id;
    let first = "<link rel=\"alternate\" hreflang=\"id\" href=\""@ + id_url + "\" />"@;
    let default_link = "\n<link rel=\"alternate\" hreflang=\"x-default\" href=\""@ + id_url + "\" />"@;
    match slug_en {
        Some(en) => first + "\n<link rel=\"alternate\" hreflang=\"en\" href=\""@ + base_url + "/blog/en/"@ + en
            + "\" />"@ + default_link,
        None => first + default_link,
    }
}

/// The canonical link tag.
pub open spec fn canonical_tag(url: Seq<char>) -> Seq<char> {
    "<link rel=\"canonical\" href=\""@ + url + "\" />"@
}

fn opt_text<'a>(o: &'a Option<String>, d: &'a str) -> (r: &'a str)
    ensures
        r@ == or_default(*o, d@),
{
    match o {
        Some(s) => s.as_str(),
        None => d,
    }
}

/// The quoted source URLs of `items`.
fn collect_source_urls(items: &Vec<SourceValue>) -> (r: Vec<String>)
    ensures
        r@.map_values(|p: String| p@) == source_urls(items@),
{
    let mut r: Vec<String> = Vec::new();
    let mut i: usize = 0;
    while i < items.len()
        invariant
            i <= items@.len(),
            r@.map_values(|p: String| p@) == source_urls(items@.take(i as int)),
        decreases items.len() - i,
    {
        let ghost before = r@;
        proof {
            let q = items@.take(i + 1);
            assert(q.drop_last() =~= items@.take(i as int));
            assert(q.last() == items@[i as int]);
        }
        match &items[i] {
            SourceValue::Object { url: Some(u) } => {
                let mut s = owned("\"");
                s.append(u.as_str());
                s.append("\"");
                r.push(s);
                assert(r@.map_values(|p: String| p@) =~= before.map_values(|p: String| p@).push(r@.last()@));
            },
            SourceValue::Text(t) => {
                let mut s = owned("\"");
                s.append(t.as_str());
                s.append("\"");
                r.push(s);
                assert(r@.map_values(|p: String| p@) =~= before.map_values(|p: String| p@).push(r@.last()@));
            },
            _ => {},
        }
        i = i + 1;
    }
    assert(items@.take(items@.len() as int) =~= items@);
    r
}

/// Escapes quotes for a JSON string value.
pub fn escape_json_quotes(s: &str) -> (r: String)
    ensures
        r@ == json_quote_escaped(s@),
{
    replace_char(s, '"', "\\\"")
}

/// The article JSON-LD (`<script type="application/ld+json">`) of a post, for
/// the Indonesian page or, with `lang` = `en`, the English one.
pub fn generate_json_ld_article(post: &BlogPost, base_url: &str, lang: &str) -> (r: String)
    ensures
        r@ == json_ld_article(*post, base_url@, lang@),
{
    proof {
        reveal_strlit("%Y-%m-%dT%H:%M:%SZ");
    }
    let mut url = owned(base_url);
    if eq_str(lang, "en") {
        url.append("/blog/en/");
        url.append(opt_text(&post.slug_en, post.slug.as_str()));
    } else {
        url.append("/blog/");
        url.append(post.slug.as_str());
    }
    let image_field = match &post.featured_image {
        Some(img) => {
            let mut f = owned("\"image\": \"");
            f.append(img.as_str());
            f.append("\",");
            f
        },
        None => String::new(),
    };
    let is_based_on = match &post.sources {
        Some(items) => {
            let urls = collect_source_urls(items);
            if urls.len() > 0 {
                let mut f = owned("\"isBasedOn\": [");
                let joined = join(&urls, ",");
                f.append(joined.as_str());
                f.append("],");
                f
            } else {
                String::new()
            }
        },
        None => String::new(),
    };
    let pub_date = match post.published_at {
        Some(t) => format_date(t, "%Y-%m-%dT%H:%M:%SZ"),
        None => String::new(),
    };
    let mod_date = format_date(post.updated_at, "%Y-%m-%dT%H:%M:%SZ");
    let author = if post.author_name.as_str().is_empty() {
        opt_text(&post.source_name, "Tim Jagad Shalawat")
    } else {
        post.author_name.as_str()
    };
    let description = opt_text(&post.excerpt, post.title.as_str());
    let mut r = owned("<script type=\"application/ld+json\">\n{\n    \"@context\": \"https://schema.org\",\n    \"@type\": \"Article\",\n    \"headline\": \"");
    let title = escape_json_quotes(post.title.as_str());
    r.append(title.as_str());
    r.append("\",\n    ");
    r.append(image_field.as_str());
    r.append("\n    ");
    r.append(is_based_on.as_str());
    r.append("\n    \"datePublished\": \"");
    r.append(pub_date.as_str());
    r.append("\",\n    \"dateModified\": \"");
    r.append(mod_date.as_str());
    r.append("\",\n    \"author\": {\n        \"@type\": \"Person\",\n        \"name\": \"");
    let author_escaped = escape_json_quotes(author);
    r.append(author_escaped.as_str());
    r.append("\"\n    },\n    \"description\": \"");
    let description_escaped = escape_json_quotes(description);
    r.append(description_escaped.as_str());
    r.append("\",\n    \"url\": \"");
    r.append(url.as_str());
    r.append("\"\n}\n</script>");
    r
}

/// The breadcrumb JSON-LD for `(name, url)` items, in order.
pub fn generate_json_ld_breadcrumb(items: &Vec<(String, String)>) -> (r: String)
    ensures
        r@ == json_ld_breadcrumb(items@),
{
    let mut list_items: Vec<String> = Vec::new();
    let mut i: usize = 0;
    while i < items.len()
        invariant
            i <= items@.len(),
            list_items@.map_values(|p: String| p@) == breadcrumb_items(items@).take(i as int),
        decreases items.len() - i,
    {
        let ghost before = list_items@;
        let (name, url) = &items[i];
        let mut item = owned("{\n            \"@type\": \"ListItem\",\n            \"position\": ");
        let position = u64_to_string((i as u64) + 1);
        item.append(position.as_str());
        item.append(",\n            \"name\": \"");
        let name_escaped = escape_json_quotes(name.as_str());
        item.append(name_escaped.as_str());
        item.append("\",\n            \"item\": \"");
        item.append(url.as_str());
        item.append("\"\n        }");
        assert(item@ == breadcrumb_items(items@)[i as int]);
        list_items.push(item);
        assert(list_items@.map_values(|p: String| p@) =~= before.map_values(|p: String| p@).push(item@));
        assert(list_items@.map_values(|p: String| p@) =~= breadcrumb_items(items@).take(i + 1));
        i = i + 1;
    }
    assert(breadcrumb_items(items@).take(items@.len() as int) =~= breadcrumb_items(items@));
    let mut r = owned("<script type=\"application/ld+json\">\n{\n    \"@context\": \"https://schema.org\",\n    \"@type\": \"BreadcrumbList\",\n    \"itemListElement\": [");
    let joined = join(&list_items, ",");
    r.append(joined.as_str());
    r.append("]\n}\n</script>");
    r
}

/// The Open Graph tags of a page (quotes in title and description escaped).
pub fn generate_og_tags(title: &str, description: &str, image: Option<&str>, url: &str, locale: &str) -> (r: String)
    ensures
        r@ == og_tags(title@, description@, crate::services::markdown::opt_str_view(image), url@, locale@),
{
    let mut r = owned("<meta property=\"og:title\" content=\"");
    let t = replace_char(title, '"', "&quot;");
    r.append(t.as_str());
    r.append("\" />\n<meta property=\"og:description\" content=\"");
    let d = replace_char(description, '"', "&quot;");
    r.append(d.as_str());
    r.append("\" />\n<meta property=\"og:url\" content=\"");
    r.append(url);
    r.append("\" />\n<meta property=\"og:locale\" content=\"");
    r.append(locale);
    r.append("\" />\n<meta property=\"og:type\" content=\"article\" />");
    if let Some(img) = image {
        r.append("\n<meta property=\"og:image\" content=\"");
        r.append(img);
        r.append("\" />");
    }
    r
}

/// The hreflang links of a post: Indonesian, English when it has an English
/// slug, and the Indonesian page as `x-default`.
pub fn generate_hreflang_tags(slug_id: &str, slug_en: Option<&str>, base_url: &str) -> (r: String)
    ensures
        r@ == hreflang_tags(slug_id@, crate::services::markdown::opt_str_view(slug_en), base_url@),
{
    let mut id_url = owned(base_url);
    id_url.append("/blog/");
    id_url.append(slug_id);
    let mut r = owned("<link rel=\"alternate\" hreflang=\"id\" href=\"");
    r.append(id_url.as_str());
    r.append("\" />");
    if let Some(en) = slug_en {
        r.append("\n<link rel=\"alternate\" hreflang=\"en\" href=\"");
        r.append(base_url);
        r.append("/blog/en/");
        r.append(en);
        r.append("\" />");
    }
    r.append("\n<link rel=\"alternate\" hreflang=\"x-default\" href=\"");
    r.append(id_url.as_str());
    r.append("\" />");
    r
}

/// The canonical link tag of a URL.
pub fn generate_canonical(url: &str) -> (r: String)
    ensures
        r@ == canonical_tag(url@),
{
    let mut r = owned("<link rel=\"canonical\" href=\"");
    r.append(url);
    r.append("\" />");
    r
}

} // verus!
