//! Markdown rendering, HTML sanitising, reading time and excerpts.
use vstd::prelude::*;

use crate::text::{is_ws, split_char, split_on, trim_chars, trim_seq, words, words_of};

verus! {

/// The view of an optional string slice.
pub open spec fn opt_str_view(o: Option<&str>) -> Option<Seq<char>> {
    match o {
        Some(s) => Some(s@),
        None => None,
    }
}

/// What comrak's `markdown_to_html` returns for `input` with these options
/// (strikethrough, table, autolink, tasklist extensions, header-id prefix)
/// and comrak's defaults for all others (so raw HTML is not passed through).
pub uninterp spec fn comrak_html(
    input: Seq<char>,
    strikethrough: bool,
    table: bool,
    autolink: bool,
    tasklist: bool,
    header_id_prefix: Option<Seq<char>>,
) -> Seq<char>;

/// What ammonia's `Builder` cleans `html` to when its allowed tags are
/// `tags`, its link `rel` is `link_rel` and all other settings are defaults.
pub uninterp spec fn ammonia_clean(html: Seq<char>, tags: Seq<Seq<char>>, link_rel: Option<Seq<char>>) -> Seq<char>;

/// `comrak::markdown_to_html` with the given extension options, defaults
/// otherwise (the default render options leave raw HTML out). The contract names comrak's output; it states nothing
/// of its content.
#[verifier::external_body]
fn comrak_markdown_to_html(
    input: &str,
    strikethrough: bool,
    table: bool,
    autolink: bool,
    tasklist: bool,
    header_id_prefix: Option<&str>,
) -> (r: String)
    ensures
        r@ == comrak_html(input@, strikethrough, table, autolink, tasklist, opt_str_view(header_id_prefix)),
{
    let mut options = comrak::Options::default();
    options.extension.strikethrough = strikethrough;
    options.extension.table = table;
    options.extension.autolink = autolink;
    options.extension.tasklist = tasklist;
    options.extension.header_id_prefix = header_id_prefix.map(|p| p.to_string());
    comrak::markdown_to_html(input, &options)
}

/// `ammonia::Builder::clean` on a default builder whose allowed tags are
/// `tags` and whose link `rel` is `link_rel`. ammonia panics when an allowed
/// tag is one whose content it removes (`script`, `style`), so those are
/// excluded. The contract names ammonia's output; it states nothing of its
/// content.
#[verifier::external_body]
fn ammonia_clean_html(html: &str, tags: &Vec<&str>, link_rel: Option<&str>) -> (r: String)
    requires
        forall|i: int| 0 <= i < tags@.len() ==> (#[trigger] tags@[i])@ != "script"@ && tags@[i]@ != "style"@,
    ensures
        r@ == ammonia_clean(html@, tags@.map_values(|t: &str| t@), opt_str_view(link_rel)),
{
    let mut builder = ammonia::Builder::default();
    builder.tags(tags.iter().cloned().collect());
    builder.link_rel(link_rel);
    builder.clean(html).to_string()
}

/// The tags a sanitised comment may keep.
pub open spec fn comment_tags() -> Seq<Seq<char>> {
    seq!["p"@, "br"@, "strong"@, "em"@, "a"@, "code"@, "pre"@, "ul"@, "ol"@, "li"@]
}

/// Renders Markdown to HTML with strikethrough, tables, autolinks, task lists
/// and header ids (empty prefix) enabled; raw HTML is left out.
pub fn render_markdown(input: &str) -> (r: String)
    ensures
        r@ == comrak_html(input@, true, true, true, true, Some(Seq::<char>::empty())),
{
    proof {
        reveal_strlit("");
        assert(""@ =~= Seq::<char>::empty());
    }
    comrak_markdown_to_html(input, true, true, true, true, Some(""))
}

/// Sanitises HTML down to p, br, strong, em, a, code, pre, ul, ol, li, with
/// `rel="nofollow"` on links.
pub fn sanitize_html(html: &str) -> (r: String)
    ensures
        r@ == ammonia_clean(html@, comment_tags(), Some("nofollow"@)),
{
    let tags: Vec<&str> = vec!["p", "br", "strong", "em", "a", "code", "pre", "ul", "ol", "li"];
    proof {
        reveal_strlit("p");
        reveal_strlit("br");
        reveal_strlit("strong");
        reveal_strlit("em");
        reveal_strlit("a");
        reveal_strlit("code");
        reveal_strlit("pre");
        reveal_strlit("ul");
        reveal_strlit("ol");
        reveal_strlit("li");
        reveal_strlit("script");
        reveal_strlit("style");
        assert(tags@.map_values(|t: &str| t@) =~= comment_tags());
        assert forall|i: int| 0 <= i < tags@.len() implies (#[trigger] tags@[i])@ != "script"@ && tags@[i]@ != "style"@ by {
            assert(tags@[i]@ == comment_tags()[i]);
            assert("script"@.len() == 6 && "style"@.len() == 5);
            if tags@[i]@.len() == 6 {
                assert(tags@[i]@[1] != "script"@[1]);
            }
        }
    }
    ammonia_clean_html(html, &tags, Some("nofollow"))
}

/// Reading time in minutes for `n` words at 200 words a minute, rounded up,
/// at least 1 (and at most `u32::MAX`).
pub open spec fn reading_minutes(n: nat) -> u32 {
    let t = (n + 199) / 200;
    if t == 0 {
        1
    } else if t > u32::MAX {
        u32::MAX
    } else {
        t as u32
    }
}

/// Estimated reading time of a text, in minutes.
pub fn calculate_reading_time(text: &str) -> (r: u32)
    ensures
        r == reading_minutes(words(text@).len()),
        r >= 1,
{
    let n = words_of(text).len();
    let t: usize = n / 200 + if n % 200 != 0 { 1 } else { 0 };
    assert(t == (n + 199) / 200) by (nonlinear_arith)
        requires
            t == n / 200 + if n % 200 != 0 { 1int } else { 0int },
    ;
    if t == 0 {
        1
    } else if t > 4294967295 {
        4294967295
    } else {
        t as u32
    }
}

/// The first line that, trimmed, is non-empty and does not begin a heading
/// (`#`), an image (`!`) or a link (`[`); empty when there is none.
pub open spec fn first_paragraph(lines: Seq<Seq<char>>) -> Seq<char>
    decreases lines.len(),
{
    if lines.len() == 0 {
        seq![]
    } else {
        let t = trim_seq(lines[0]);
        if t.len() > 0 && t[0] != '#' && t[0] != '!' && t[0] != '[' {
            t
        } else {
            first_paragraph(lines.drop_first())
        }
    }
}

/// The first paragraph-like line of a Markdown text, trimmed. Lines are the
/// pieces between `\n`; the `\r` of a CRLF ending is white space and goes
/// with the trim.
pub fn extract_first_paragraph(markdown: &str) -> (r: String)
    ensures
        r@ == first_paragraph(split_on(markdown@, '\n')),
{
    let pieces = split_char(markdown, '\n');
    let ghost all = split_on(markdown@, '\n');
    let mut k: usize = 0;
    assert(all.skip(0) =~= all);
    while k < pieces.len()
        invariant
            k <= pieces@.len() == all.len(),
            all == split_on(markdown@, '\n'),
            forall|m: int| 0 <= m < pieces@.len() ==> (#[trigger] pieces@[m])@ == all[m],
            first_paragraph(all) == first_paragraph(all.skip(k as int)),
        decreases pieces.len() - k,
    {
        let t = trim_chars(&pieces[k]);
        proof {
            let rest = all.skip(k as int);
            assert(rest[0] == all[k as int]);
            assert(rest.drop_first() =~= all.skip(k + 1));
        }
        let tv = crate::text::to_chars(t.as_str());
        if tv.len() > 0 && tv[0] != '#' && tv[0] != '!' && tv[0] != '[' {
            return t;
        }
        k = k + 1;
    }
    String::new()
}

} // verus!
