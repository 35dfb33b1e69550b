//! The Markdown documentation pages of `crepus web build`: each Markdown
//! file of the docs directory becomes an HTML page in the site's theme, with
//! a navigation list of the pages and a search index. Markdown is rendered
//! by pulldown-cmark; reading and writing the files is left to the caller.
use vstd::prelude::*;
use crate::json::{json_string, push_json_string};
use crate::text::{
    chars_of, lines, lines_of, pair_views, push_char, push_str, starts_with, starts_with_str, str_eq, string_from_range,
    to_ascii_lowercase, ascii_lowercase, to_owned_string, trim, trim_bounds,
};

verus! {

// ── Escaping ───────────────────────────────────────────────────────────────

/// The HTML form of one character: `&`, `<`, `>` and `"` become entities.
pub open spec fn esc_char(c: char) -> Seq<char> {
    if c == '&' {
        "&amp;"@
    } else if c == '<' {
        "&lt;"@
    } else if c == '>' {
        "&gt;"@
    } else if c == '"' {
        "&quot;"@
    } else {
        seq![c]
    }
}

/// A text escaped for HTML, character by character.
pub open spec fn spec_esc(s: Seq<char>) -> Seq<char>
    decreases s.len(),
{
    if s.len() == 0 {
        Seq::empty()
    } else {
        spec_esc(s.drop_last()) + esc_char(s.last())
    }
}

/// `s` escaped for HTML text and attribute values.
pub fn esc(s: &str) -> (r: String)
    ensures
        r@ == spec_esc(s@),
{
    let cs = chars_of(s);
    let mut out = String::new();
    let mut i: usize = 0;
    while i < cs.len()
        invariant
            i <= cs@.len(),
            cs@ == s@,
            out@ == spec_esc(cs@.take(i as int)),
        decreases cs@.len() - i,
    {
        let c = cs[i];
        assert(cs@.take(i + 1).drop_last() =~= cs@.take(i as int));
        if c == '&' {
            push_str(&mut out, "&amp;");
        } else if c == '<' {
            push_str(&mut out, "&lt;");
        } else if c == '>' {
            push_str(&mut out, "&gt;");
        } else if c == '"' {
            push_str(&mut out, "&quot;");
        } else {
            push_char(&mut out, c);
        }
        i = i + 1;
    }
    assert(cs@.take(cs@.len() as int) =~= cs@);
    out
}

/// The characters that would open or close markup.
pub open spec fn is_markup_char(c: char) -> bool {
    c == '<' || c == '>' || c == '"'
}

/// Escaped text holds no `<`, `>` or `"`, so it can neither open a tag nor
/// end an attribute value; and every `&` in it starts one of the four
/// entities.
pub proof fn law_escaped_text_has_no_markup(s: Seq<char>)
    ensures
        forall|i: int| 0 <= i < spec_esc(s).len() ==> !is_markup_char(#[trigger] spec_esc(s)[i]),
        forall|i: int|
            0 <= i < spec_esc(s).len() && #[trigger] spec_esc(s)[i] == '&' ==> {
                let rest = spec_esc(s).skip(i);
                starts_with(rest, "&amp;"@) || starts_with(rest, "&lt;"@) || starts_with(rest, "&gt;"@)
                    || starts_with(rest, "&quot;"@)
            },
    decreases s.len(),
{
    reveal_strlit("&amp;");
    reveal_strlit("&lt;");
    reveal_strlit("&gt;");
    reveal_strlit("&quot;");
    if s.len() > 0 {
        let p = spec_esc(s.drop_last());
        let e = esc_char(s.last());
        law_escaped_text_has_no_markup(s.drop_last());
        assert(spec_esc(s) == p + e);
        assert forall|i: int| 0 <= i < spec_esc(s).len() implies !is_markup_char(#[trigger] spec_esc(s)[i]) by {
            if i >= p.len() {
                assert(spec_esc(s)[i] == e[i - p.len()]);
            } else {
                assert(spec_esc(s)[i] == p[i]);
            }
        }
        assert forall|i: int| 0 <= i < spec_esc(s).len() && #[trigger] spec_esc(s)[i] == '&' implies {
            let rest = spec_esc(s).skip(i);
            starts_with(rest, "&amp;"@) || starts_with(rest, "&lt;"@) || starts_with(rest, "&gt;"@)
                || starts_with(rest, "&quot;"@)
        } by {
            let rest = spec_esc(s).skip(i);
            if i >= p.len() {
                assert(spec_esc(s)[i] == e[i - p.len()]);
                assert(i == p.len());
                assert(rest =~= e);
                assert(e.subrange(0, e.len() as int) =~= e);
            } else {
                assert(spec_esc(s)[i] == p[i]);
                let prest = p.skip(i);
                assert(p[i] == '&');
                assert(prest[0] == '&');
                assert(rest =~= prest + e);
                if starts_with(prest, "&amp;"@) {
                    assert(rest.subrange(0, 5) =~= prest.subrange(0, 5));
                } else if starts_with(prest, "&lt;"@) {
                    assert(rest.subrange(0, 4) =~= prest.subrange(0, 4));
                } else if starts_with(prest, "&gt;"@) {
                    assert(rest.subrange(0, 4) =~= prest.subrange(0, 4));
                } else {
                    assert(rest.subrange(0, 6) =~= prest.subrange(0, 6));
                }
            }
        }
    }
}

/// Text without `&`, `<`, `>` and `"` is left as it is.
pub proof fn law_plain_text_unescaped(s: Seq<char>)
    requires
        forall|i: int| 0 <= i < s.len() ==> !is_markup_char(#[trigger] s[i]) && s[i] != '&',
    ensures
        spec_esc(s) == s,
    decreases s.len(),
{
    if s.len() > 0 {
        law_plain_text_unescaped(s.drop_last());
        assert(!is_markup_char(s[s.len() - 1]) && s[s.len() - 1] != '&');
        assert(s.drop_last().push(s.last()) =~= s);
    }
}

// ── Navigation ─────────────────────────────────────────────────────────────

/// The list item of one page: a link to `<stem>.html` with the page's
/// escaped title, marked active for the current page.
pub open spec fn nav_item(stem: Seq<char>, title: Seq<char>, current: Seq<char>) -> Seq<char> {
    "<li><a href=\""@ + stem + ".html\""@ + (if stem == current {
        " class=\"active\""@
    } else {
        Seq::<char>::empty()
    }) + ">"@ + spec_esc(title) + "</a></li>"@
}

/// The list items of the pages, in order.
pub open spec fn nav_items(pages: Seq<(Seq<char>, Seq<char>)>, current: Seq<char>) -> Seq<char>
    decreases pages.len(),
{
    if pages.len() == 0 {
        Seq::empty()
    } else {
        nav_items(pages.drop_last(), current) + nav_item(pages.last().0, pages.last().1, current)
    }
}

/// The navigation of a page: a search box and the list of the pages
/// (`(stem, title)`), with `current` marked.
pub open spec fn spec_render_nav(pages: Seq<(Seq<char>, Seq<char>)>, current: Seq<char>) -> Seq<char> {
    r##"<nav aria-label="Documentation"><div class="doc-search"><input type="text" id="doc-search-input" placeholder="Search docs…" autocomplete="off"><div id="doc-search-results" class="doc-search-results"></div></div><ul class="doc-nav" id="doc-nav-list">"##@ + nav_items(pages, current) + "</ul></nav>"@
}

pub fn render_nav(pages: &Vec<(String, String)>, current: &str) -> (r: String)
    ensures
        r@ == spec_render_nav(pair_views(pages@), current@),
{
    let ghost pv = pair_views(pages@);
    let mut items = String::new();
    let mut i: usize = 0;
    while i < pages.len()
        invariant
            i <= pages@.len(),
            pv == pair_views(pages@),
            items@ == nav_items(pv.take(i as int), current@),
        decreases pages@.len() - i,
    {
        let (stem, title) = (&pages[i].0, &pages[i].1);
        assert(pv.take(i + 1).drop_last() =~= pv.take(i as int));
        assert(pv.take(i + 1).last() == (stem@, title@));
        push_str(&mut items, "<li><a href=\"");
        push_str(&mut items, stem.as_str());
        push_str(&mut items, ".html\"");
        if str_eq(stem.as_str(), current) {
            push_str(&mut items, " class=\"active\"");
        }
        push_str(&mut items, ">");
        let t = esc(title.as_str());
        push_str(&mut items, t.as_str());
        push_str(&mut items, "</a></li>");
        i = i + 1;
    }
    assert(pv.take(pages@.len() as int) =~= pv);
    let mut out = to_owned_string(r##"<nav aria-label="Documentation"><div class="doc-search"><input type="text" id="doc-search-input" placeholder="Search docs…" autocomplete="off"><div id="doc-search-results" class="doc-search-results"></div></div><ul class="doc-nav" id="doc-nav-list">"##);
    push_str(&mut out, items.as_str());
    push_str(&mut out, "</ul></nav>");
    out
}

// ── Pages ──────────────────────────────────────────────────────────────────

/// The title a line gives a page: a line that starts with `# ` gives the
/// rest of it, trimmed, when that is not empty.
pub open spec fn heading_title(line: Seq<char>) -> Option<Seq<char>> {
    if starts_with(line, "# "@) && trim(line.skip(2)).len() > 0 {
        Some(trim(line.skip(2)))
    } else {
        None
    }
}

/// The first title that a line of `ls` gives.
pub open spec fn first_heading(ls: Seq<Seq<char>>) -> Option<Seq<char>>
    decreases ls.len(),
{
    if ls.len() == 0 {
        None
    } else {
        match heading_title(ls[0]) {
            Some(t) => Some(t),
            None => first_heading(ls.drop_first()),
        }
    }
}

/// The title of a Markdown page: its first `# ` heading, else
/// `Documentation`.
pub open spec fn spec_doc_title(md: Seq<char>) -> Seq<char> {
    match first_heading(lines(md)) {
        Some(t) => t,
        None => "Documentation"@,
    }
}

fn heading_of(line: &str) -> (r: Option<String>)
    ensures
        match r {
            Some(t) => heading_title(line@) == Some(t@),
            None => heading_title(line@) is None,
        },
{
    proof {
        reveal_strlit("# ");
    }
    if !starts_with_str(line, "# ") {
        return None;
    }
    let cs = chars_of(line);
    let (a, b) = trim_bounds(&cs, 2, cs.len());
    assert(cs@.subrange(2, cs@.len() as int) =~= line@.skip(2));
    if a == b {
        return None;
    }
    Some(string_from_range(&cs, a, b))
}

/// The title of a Markdown page (see `spec_doc_title`).
pub fn doc_title(md: &str) -> (r: String)
    ensures
        r@ == spec_doc_title(md@),
{
    let ls = lines_of(md);
    let ghost all = lines(md@);
    let mut i: usize = 0;
    assert(all.skip(0) =~= all);
    while i < ls.len()
        invariant
            i <= ls@.len(),
            ls@.len() == all.len(),
            all == lines(md@),
            forall|j: int| 0 <= j < ls@.len() ==> #[trigger] ls@[j]@ == all[j],
            first_heading(all.skip(i as int)) == first_heading(all),
        decreases ls@.len() - i,
    {
        assert(all.skip(i as int)[0] == ls@[i as int]@);
        assert(all.skip(i as int).drop_first() =~= all.skip(i + 1));
        match heading_of(ls[i].as_str()) {
            Some(t) => {
                return t;
            },
            None => {},
        }
        i = i + 1;
    }
    assert(all.skip(ls@.len() as int).len() == 0);
    to_owned_string("Documentation")
}

/// The HTML that pulldown-cmark makes of a Markdown text, with tables,
/// strikethrough, heading attributes and GitHub-flavoured blocks enabled.
/// It depends on the text alone.
pub uninterp spec fn markdown_html(md: Seq<char>) -> Seq<char>;

/// `pulldown_cmark::html::push_html` of `Parser::new_ext` on the text with
/// those four options, into an empty string; the contract names the result
/// `markdown_html` and says nothing more of it.
#[verifier::external_body]
fn markdown_to_html(md: &str) -> (r: String)
    ensures
        r@ == markdown_html(md@),
{
    let mut opts = pulldown_cmark::Options::empty();
    opts.insert(pulldown_cmark::Options::ENABLE_TABLES);
    opts.insert(pulldown_cmark::Options::ENABLE_STRIKETHROUGH);
    opts.insert(pulldown_cmark::Options::ENABLE_HEADING_ATTRIBUTES);
    opts.insert(pulldown_cmark::Options::ENABLE_GFM);
    let mut body = String::new();
    pulldown_cmark::html::push_html(&mut body, pulldown_cmark::Parser::new_ext(md, opts));
    body
}

/// A Markdown page rendered: its title and its HTML body.
pub fn render_md(md: &str) -> (r: (String, String))
    ensures
        r.0@ == spec_doc_title(md@),
        r.1@ == markdown_html(md@),
{
    (doc_title(md), markdown_to_html(md))
}

/// The colours of the site's theme, as CSS values.
#[derive(Clone, Debug, PartialEq, Eq)]
pub struct DocTheme {
    pub accent: String,
    pub surface: String,
    pub text: String,
    pub muted: String,
    pub border: String,
}

/// Part 1 of the page: the head: title and the first rules of the style sheet.
pub open spec fn shell_part_1(ttl: Seq<char>, site: Seq<char>, a: Seq<char>, s: Seq<char>, t: Seq<char>, m: Seq<char>, b: Seq<char>, nav: Seq<char>, body: Seq<char>) -> Seq<char> {
    r##"<!DOCTYPE html>
<html lang="en">
<head>
<meta charset="utf-8">
<meta name="viewport" content="width=device-width, initial-scale=1">
<title>"##@ + ttl + r##" — "##@ + site + r##"</title>
<style>
  *{box-sizing:border-box}
  body{margin:0;min-height:100vh;background:"##@ + s + r##";color:"##@ + t + r##";font-family:Inter,system-ui,sans-serif;-webkit-font-smoothing:antialiased;line-height:1.6}
  a{color:color-mix(in srgb,"##@ + t + r##" 88%,transparent);text-decoration:none}
  a:hover{color:"##@ + t + r##";text-decoration:underline;text-underline-offset:3px}
  .doc-shell{display:grid;grid-template-columns:minmax(220px,280px) 1fr;min-height:100vh}
  aside{position:sticky;top:0;height:100vh;overflow-y:auto;padding:1.5rem;border-right:1px solid "##@ + b + r##";background:color-mix(in srgb,"##@ + s + r##" 92%,white 8%)}
  .brand{font-weight:700;font-size:.95rem;color:"##@ + t
}

fn push_shell_part_1(out: &mut String, ttl: &str, site: &str, a: &str, s: &str, t: &str, m: &str, b: &str, nav: &str, body: &str)
    ensures
        final(out)@ == old(out)@ + shell_part_1(ttl@, site@, a@, s@, t@, m@, b@, nav@, body@),
{
    push_str(out, r##"<!DOCTYPE html>
<html lang="en">
<head>
<meta charset="utf-8">
<meta name="viewport" content="width=device-width, initial-scale=1">
<title>"##);
    push_str(out, ttl);
    push_str(out, r##" — "##);
    push_str(out, site);
    push_str(out, r##"</title>
<style>
  *{box-sizing:border-box}
  body{margin:0;min-height:100vh;background:"##);
    push_str(out, s);
    push_str(out, r##";color:"##);
    push_str(out, t);
    push_str(out, r##";font-family:Inter,system-ui,sans-serif;-webkit-font-smoothing:antialiased;line-height:1.6}
  a{color:color-mix(in srgb,"##);
    push_str(out, t);
    push_str(out, r##" 88%,transparent);text-decoration:none}
  a:hover{color:"##);
    push_str(out, t);
    push_str(out, r##";text-decoration:underline;text-underline-offset:3px}
  .doc-shell{display:grid;grid-template-columns:minmax(220px,280px) 1fr;min-height:100vh}
  aside{position:sticky;top:0;height:100vh;overflow-y:auto;padding:1.5rem;border-right:1px solid "##);
    push_str(out, b);
    push_str(out, r##";background:color-mix(in srgb,"##);
    push_str(out, s);
    push_str(out, r##" 92%,white 8%)}
  .brand{font-weight:700;font-size:.95rem;color:"##);
    push_str(out, t);
}

/// Part 2 of the page: the style sheet: layout, search box and results.
pub open spec fn shell_part_2(ttl: Seq<char>, site: Seq<char>, a: Seq<char>, s: Seq<char>, t: Seq<char>, m: Seq<char>, b: Seq<char>, nav: Seq<char>, body: Seq<char>) -> Seq<char> {
    r##";display:block;margin-bottom:1rem}
  .brand:hover{opacity:.85;text-decoration:none}
  .doc-search{margin-bottom:1rem;position:relative}
  .doc-search input{width:100%;padding:.5rem .75rem;border:1px solid "##@ + b + r##";border-radius:6px;background:color-mix(in srgb,"##@ + t + r##" 6%,"##@ + s + r##");color:"##@ + t + r##";font-size:.85rem;outline:none;transition:border-color .15s}
  .doc-search input:focus{border-color:"##@ + a + r##"}
  .doc-search input::placeholder{color:"##@ + m + r##";opacity:.7}
  .doc-search-results{position:absolute;z-index:10;left:0;right:0;max-height:260px;overflow-y:auto;border:1px solid "##@ + b + r##";border-radius:6px;background:"##@ + s + r##";display:none;box-shadow:0 4px 16px rgba(0,0,0,.35)}
  .doc-search-results.visible{display:block}
  .doc-search-results a{display:block;padding:.5rem .75rem;font-size:.85rem;color:"##@ + m
}

fn push_shell_part_2(out: &mut String, ttl: &str, site: &str, a: &str, s: &str, t: &str, m: &str, b: &str, nav: &str, body: &str)
    ensures
        final(out)@ == old(out)@ + shell_part_2(ttl@, site@, a@, s@, t@, m@, b@, nav@, body@),
{
    push_str(out, r##";display:block;margin-bottom:1rem}
  .brand:hover{opacity:.85;text-decoration:none}
  .doc-search{margin-bottom:1rem;position:relative}
  .doc-search input{width:100%;padding:.5rem .75rem;border:1px solid "##);
    push_str(out, b);
    push_str(out, r##";border-radius:6px;background:color-mix(in srgb,"##);
    push_str(out, t);
    push_str(out, r##" 6%,"##);
    push_str(out, s);
    push_str(out, r##");color:"##);
    push_str(out, t);
    push_str(out, r##";font-size:.85rem;outline:none;transition:border-color .15s}
  .doc-search input:focus{border-color:"##);
    push_str(out, a);
    push_str(out, r##"}
  .doc-search input::placeholder{color:"##);
    push_str(out, m);
    push_str(out, r##";opacity:.7}
  .doc-search-results{position:absolute;z-index:10;left:0;right:0;max-height:260px;overflow-y:auto;border:1px solid "##);
    push_str(out, b);
    push_str(out, r##";border-radius:6px;background:"##);
    push_str(out, s);
    push_str(out, r##";display:none;box-shadow:0 4px 16px rgba(0,0,0,.35)}
  .doc-search-results.visible{display:block}
  .doc-search-results a{display:block;padding:.5rem .75rem;font-size:.85rem;color:"##);
    push_str(out, m);
}

/// Part 3 of the page: the style sheet: navigation and article text.
pub open spec fn shell_part_3(ttl: Seq<char>, site: Seq<char>, a: Seq<char>, s: Seq<char>, t: Seq<char>, m: Seq<char>, b: Seq<char>, nav: Seq<char>, body: Seq<char>) -> Seq<char> {
    r##";border-bottom:1px solid color-mix(in srgb,"##@ + b + r##" 30%,transparent)}
  .doc-search-results a:last-child{border-bottom:none}
  .doc-search-results a:hover,.doc-search-results a.focused{background:color-mix(in srgb,"##@ + a + r##" 14%,transparent);color:"##@ + t + r##";text-decoration:none}
  .doc-search-results .no-match{padding:.75rem;color:"##@ + m + r##";font-size:.8rem;font-style:italic}
  .doc-nav{list-style:none;padding:0;margin:0;font-size:.875rem}
  .doc-nav li{margin:.25rem 0}
  .doc-nav a{display:block;padding:.3rem .5rem;border-radius:5px;color:"##@ + m + r##";transition:background .12s,color .12s}
  .doc-nav a.active{color:"##@ + a + r##";font-weight:600;background:color-mix(in srgb,"##@ + a + r##" 12%,transparent)}
  .doc-nav a:hover{color:"##@ + t + r##";background:color-mix(in srgb,"##@ + t
}

fn push_shell_part_3(out: &mut String, ttl: &str, site: &str, a: &str, s: &str, t: &str, m: &str, b: &str, nav: &str, body: &str)
    ensures
        final(out)@ == old(out)@ + shell_part_3(ttl@, site@, a@, s@, t@, m@, b@, nav@, body@),
{
    push_str(out, r##";border-bottom:1px solid color-mix(in srgb,"##);
    push_str(out, b);
    push_str(out, r##" 30%,transparent)}
  .doc-search-results a:last-child{border-bottom:none}
  .doc-search-results a:hover,.doc-search-results a.focused{background:color-mix(in srgb,"##);
    push_str(out, a);
    push_str(out, r##" 14%,transparent);color:"##);
    push_str(out, t);
    push_str(out, r##";text-decoration:none}
  .doc-search-results .no-match{padding:.75rem;color:"##);
    push_str(out, m);
    push_str(out, r##";font-size:.8rem;font-style:italic}
  .doc-nav{list-style:none;padding:0;margin:0;font-size:.875rem}
  .doc-nav li{margin:.25rem 0}
  .doc-nav a{display:block;padding:.3rem .5rem;border-radius:5px;color:"##);
    push_str(out, m);
    push_str(out, r##";transition:background .12s,color .12s}
  .doc-nav a.active{color:"##);
    push_str(out, a);
    push_str(out, r##";font-weight:600;background:color-mix(in srgb,"##);
    push_str(out, a);
    push_str(out, r##" 12%,transparent)}
  .doc-nav a:hover{color:"##);
    push_str(out, t);
    push_str(out, r##";background:color-mix(in srgb,"##);
    push_str(out, t);
}

/// Part 4 of the page: the style sheet: code, quotes, tables and narrow screens.
pub open spec fn shell_part_4(ttl: Seq<char>, site: Seq<char>, a: Seq<char>, s: Seq<char>, t: Seq<char>, m: Seq<char>, b: Seq<char>, nav: Seq<char>, body: Seq<char>) -> Seq<char> {
    r##" 6%,transparent);text-decoration:none}
  article{max-width:45rem;margin:0 auto;padding:1.5rem 2rem 3rem}
  article h1,h2,h3{color:"##@ + t + r##"}
  article h1{font-size:1.75rem}
  article h2{font-size:1.3rem;border-bottom:1px solid "##@ + b + r##";padding-bottom:.35rem}
  article p,li{color:"##@ + m + r##"}
  article code{font-family:monospace;font-size:.85em;background:color-mix(in srgb,"##@ + t + r##" 10%,transparent);padding:.12rem .35rem;border-radius:4px}
  article pre{background:color-mix(in srgb,"##@ + t + r##" 6%,"##@ + s + r##");border:1px solid "##@ + b + r##";border-radius:8px;padding:1rem;overflow-x:auto;font-size:.82rem}
  article pre code{background:none;padding:0}
  article blockquote{margin:1rem 0;padding:.5rem 1rem;border-left:3px solid "##@ + a + r##";background:color-mix(in srgb,"##@ + a
}

fn push_shell_part_4(out: &mut String, ttl: &str, site: &str, a: &str, s: &str, t: &str, m: &str, b: &str, nav: &str, body: &str)
    ensures
        final(out)@ == old(out)@ + shell_part_4(ttl@, site@, a@, s@, t@, m@, b@, nav@, body@),
{
    push_str(out, r##" 6%,transparent);text-decoration:none}
  article{max-width:45rem;margin:0 auto;padding:1.5rem 2rem 3rem}
  article h1,h2,h3{color:"##);
    push_str(out, t);
    push_str(out, r##"}
  article h1{font-size:1.75rem}
  article h2{font-size:1.3rem;border-bottom:1px solid "##);
    push_str(out, b);
    push_str(out, r##";padding-bottom:.35rem}
  article p,li{color:"##);
    push_str(out, m);
    push_str(out, r##"}
  article code{font-family:monospace;font-size:.85em;background:color-mix(in srgb,"##);
    push_str(out, t);
    push_str(out, r##" 10%,transparent);padding:.12rem .35rem;border-radius:4px}
  article pre{background:color-mix(in srgb,"##);
    push_str(out, t);
    push_str(out, r##" 6%,"##);
    push_str(out, s);
    push_str(out, r##");border:1px solid "##);
    push_str(out, b);
    push_str(out, r##";border-radius:8px;padding:1rem;overflow-x:auto;font-size:.82rem}
  article pre code{background:none;padding:0}
  article blockquote{margin:1rem 0;padding:.5rem 1rem;border-left:3px solid "##);
    push_str(out, a);
    push_str(out, r##";background:color-mix(in srgb,"##);
    push_str(out, a);
}

/// Part 5 of the page: the body: site link, navigation, article and the search script.
pub open spec fn shell_part_5(ttl: Seq<char>, site: Seq<char>, a: Seq<char>, s: Seq<char>, t: Seq<char>, m: Seq<char>, b: Seq<char>, nav: Seq<char>, body: Seq<char>) -> Seq<char> {
    r##" 8%,transparent);border-radius:0 8px 8px 0}
  article table{width:100%;border-collapse:collapse;margin:1rem 0;font-size:.875rem}
  article th,td{padding:.5rem .75rem;border:1px solid "##@ + b + r##"}
  article th{background:color-mix(in srgb,"##@ + t + r##" 6%,transparent);color:"##@ + t + r##"}
  @media(max-width:640px){
    .doc-shell{grid-template-columns:1fr}
    aside{position:static;height:auto;border-right:none;border-bottom:1px solid "##@ + b + r##"}
    .doc-search-results{right:1rem}
  }
</style>
</head>
<body>
<div class="doc-shell">
<aside><a class="brand" href="../index.html">"##@ + site + r##"</a>"##@ + nav + r##"</aside>
<article>"##@ + body + r##"</article>
</div>
<script>
(function(){
  var idx=[];
  fetch('../docs/docs-search-index.json').then(function(r){return r.json()}).then(function(d){idx=d}).catch(function(){});
  var input=document.getElementById('doc-search-input');
  var results=document.getElementById('doc-search-results');
  var navList=document.getElementById('doc-nav-list');
  var focusIdx=-1;
  if(!input||!results)return;
  function fuzzy(q,s){
    q=q.toLowerCase();s=s.toLowerCase();
    if(s.indexOf(q)!==-1)return 1;
    var qi=0;
    for(var si=0;si<s.length&&qi<q.length;si++){
      if(s[si]===q[qi])qi++;
    }
    return qi===q.length?0.5:0;
  }
  function render(q){
    if(!q.trim()){
      results.className='doc-search-results';
      results.innerHTML='';
      if(navList){var items=navList.querySelectorAll('li');for(var i=0;i<items.length;i++)items[i].style.display=''}
      return;
    }
    var scored=[];
    for(var i=0;i<idx.length;i++){
      var s=fuzzy(q,idx[i].title);
      if(s>0)scored.push({item:idx[i],score:s});
    }
    scored.sort(function(a,b){return b.score-a.score});
    if(navList){
      var items=navList.querySelectorAll('li');
      var matchPaths=scored.map(function(s){return s.item.path});
      for(var i=0;i<items.length;i++){
        var a=items[i].querySelector('a');
        var href=a?a.getAttribute('href'):'';
        items[i].style.display=matchPaths.indexOf(href)!==-1?'':'none';
      }
    }
    if(scored.length===0){
      results.innerHTML='<div class="no-match">No results</div>';
    }else{
      results.innerHTML=scored.map(function(s){
        return '<a href="'+s.item.path+'">'+s.item.title+'</a>';
      }).join('');
    }
    results.className='doc-search-results visible';
    focusIdx=-1;
  }
  input.addEventListener('input',function(){render(this.value)});
  input.addEventListener('keydown',function(e){
    var links=results.querySelectorAll('a');
    if(e.key==='ArrowDown'){e.preventDefault();focusIdx=Math.min(focusIdx+1,links.length-1);updateFocus(links)}
    else if(e.key==='ArrowUp'){e.preventDefault();focusIdx=Math.max(focusIdx-1,-1);updateFocus(links)}
    else if(e.key==='Enter'&&focusIdx>=0&&links[focusIdx]){e.preventDefault();window.location.href=links[focusIdx].href}
    else if(e.key==='Escape'){input.value='';render('');input.blur()}
  });
  function updateFocus(links){
    for(var i=0;i<links.length;i++)links[i].className=i===focusIdx?'focused':'';
  }
  document.addEventListener('click',function(e){
    if(!e.target.closest('.doc-search')){render('')}
  });
})();
</script>
</body>
</html>"##@
}

fn push_shell_part_5(out: &mut String, ttl: &str, site: &str, a: &str, s: &str, t: &str, m: &str, b: &str, nav: &str, body: &str)
    ensures
        final(out)@ == old(out)@ + shell_part_5(ttl@, site@, a@, s@, t@, m@, b@, nav@, body@),
{
    push_str(out, r##" 8%,transparent);border-radius:0 8px 8px 0}
  article table{width:100%;border-collapse:collapse;margin:1rem 0;font-size:.875rem}
  article th,td{padding:.5rem .75rem;border:1px solid "##);
    push_str(out, b);
    push_str(out, r##"}
  article th{background:color-mix(in srgb,"##);
    push_str(out, t);
    push_str(out, r##" 6%,transparent);color:"##);
    push_str(out, t);
    push_str(out, r##"}
  @media(max-width:640px){
    .doc-shell{grid-template-columns:1fr}
    aside{position:static;height:auto;border-right:none;border-bottom:1px solid "##);
    push_str(out, b);
    push_str(out, r##"}
    .doc-search-results{right:1rem}
  }
</style>
</head>
<body>
<div class="doc-shell">
<aside><a class="brand" href="../index.html">"##);
    push_str(out, site);
    push_str(out, r##"</a>"##);
    push_str(out, nav);
    push_str(out, r##"</aside>
<article>"##);
    push_str(out, body);
    push_str(out, r##"</article>
</div>
<script>
(function(){
  var idx=[];
  fetch('../docs/docs-search-index.json').then(function(r){return r.json()}).then(function(d){idx=d}).catch(function(){});
  var input=document.getElementById('doc-search-input');
  var results=document.getElementById('doc-search-results');
  var navList=document.getElementById('doc-nav-list');
  var focusIdx=-1;
  if(!input||!results)return;
  function fuzzy(q,s){
    q=q.toLowerCase();s=s.toLowerCase();
    if(s.indexOf(q)!==-1)return 1;
    var qi=0;
    for(var si=0;si<s.length&&qi<q.length;si++){
      if(s[si]===q[qi])qi++;
    }
    return qi===q.length?0.5:0;
  }
  function render(q){
    if(!q.trim()){
      results.className='doc-search-results';
      results.innerHTML='';
      if(navList){var items=navList.querySelectorAll('li');for(var i=0;i<items.length;i++)items[i].style.display=''}
      return;
    }
    var scored=[];
    for(var i=0;i<idx.length;i++){
      var s=fuzzy(q,idx[i].title);
      if(s>0)scored.push({item:idx[i],score:s});
    }
    scored.sort(function(a,b){return b.score-a.score});
    if(navList){
      var items=navList.querySelectorAll('li');
      var matchPaths=scored.map(function(s){return s.item.path});
      for(var i=0;i<items.length;i++){
        var a=items[i].querySelector('a');
        var href=a?a.getAttribute('href'):'';
        items[i].style.display=matchPaths.indexOf(href)!==-1?'':'none';
      }
    }
    if(scored.length===0){
      results.innerHTML='<div class="no-match">No results</div>';
    }else{
      results.innerHTML=scored.map(function(s){
        return '<a href="'+s.item.path+'">'+s.item.title+'</a>';
      }).join('');
    }
    results.className='doc-search-results visible';
    focusIdx=-1;
  }
  input.addEventListener('input',function(){render(this.value)});
  input.addEventListener('keydown',function(e){
    var links=results.querySelectorAll('a');
    if(e.key==='ArrowDown'){e.preventDefault();focusIdx=Math.min(focusIdx+1,links.length-1);updateFocus(links)}
    else if(e.key==='ArrowUp'){e.preventDefault();focusIdx=Math.max(focusIdx-1,-1);updateFocus(links)}
    else if(e.key==='Enter'&&focusIdx>=0&&links[focusIdx]){e.preventDefault();window.location.href=links[focusIdx].href}
    else if(e.key==='Escape'){input.value='';render('');input.blur()}
  });
  function updateFocus(links){
    for(var i=0;i<links.length;i++)links[i].className=i===focusIdx?'focused':'';
  }
  document.addEventListener('click',function(e){
    if(!e.target.closest('.doc-search')){render('')}
  });
})();
</script>
</body>
</html>"##);
}

/// The HTML document of a page, from its escaped title, site name and theme
/// colours (`a` accent, `s` surface, `t` text, `m` muted, `b` border), its
/// navigation and its body.
pub open spec fn spec_doc_shell(ttl: Seq<char>, site: Seq<char>, a: Seq<char>, s: Seq<char>, t: Seq<char>, m: Seq<char>, b: Seq<char>, nav: Seq<char>, body: Seq<char>) -> Seq<char> {
    shell_part_1(ttl, site, a, s, t, m, b, nav, body) + shell_part_2(ttl, site, a, s, t, m, b, nav, body) + shell_part_3(ttl, site, a, s, t, m, b, nav, body) + shell_part_4(ttl, site, a, s, t, m, b, nav, body) + shell_part_5(ttl, site, a, s, t, m, b, nav, body)
}

/// The page around `body`: title, site name and colours escaped.
pub open spec fn spec_render_shell(body: Seq<char>, title: Seq<char>, nav: Seq<char>, theme: DocTheme, site_name: Seq<char>) -> Seq<char> {
    spec_doc_shell(
        spec_esc(title),
        spec_esc(site_name),
        spec_esc(theme.accent@),
        spec_esc(theme.surface@),
        spec_esc(theme.text@),
        spec_esc(theme.muted@),
        spec_esc(theme.border@),
        nav,
        body,
    )
}

pub fn render_shell(body: &str, title: &str, nav: &str, theme: &DocTheme, site_name: &str) -> (r: String)
    ensures
        r@ == spec_render_shell(body@, title@, nav@, *theme, site_name@),
{
    let ttl = esc(title);
    let site = esc(site_name);
    let a = esc(theme.accent.as_str());
    let s = esc(theme.surface.as_str());
    let t = esc(theme.text.as_str());
    let m = esc(theme.muted.as_str());
    let b = esc(theme.border.as_str());
    let mut out = String::new();
    push_shell_part_1(&mut out, ttl.as_str(), site.as_str(), a.as_str(), s.as_str(), t.as_str(), m.as_str(), b.as_str(), nav, body);
    push_shell_part_2(&mut out, ttl.as_str(), site.as_str(), a.as_str(), s.as_str(), t.as_str(), m.as_str(), b.as_str(), nav, body);
    push_shell_part_3(&mut out, ttl.as_str(), site.as_str(), a.as_str(), s.as_str(), t.as_str(), m.as_str(), b.as_str(), nav, body);
    push_shell_part_4(&mut out, ttl.as_str(), site.as_str(), a.as_str(), s.as_str(), t.as_str(), m.as_str(), b.as_str(), nav, body);
    push_shell_part_5(&mut out, ttl.as_str(), site.as_str(), a.as_str(), s.as_str(), t.as_str(), m.as_str(), b.as_str(), nav, body);
    out
}

// ── The site ───────────────────────────────────────────────────────────────

/// The page name of a Markdown file with stem `stem`: `index` for a README
/// (in any letter case), else the stem.
pub open spec fn spec_out_stem(stem: Seq<char>) -> Seq<char> {
    if ascii_lowercase(stem) == "readme"@ {
        "index"@
    } else {
        stem
    }
}

pub fn out_stem(stem: &str) -> (r: String)
    ensures
        r@ == spec_out_stem(stem@),
{
    let lower = to_ascii_lowercase(stem);
    if str_eq(lower.as_str(), "readme") {
        to_owned_string("index")
    } else {
        to_owned_string(stem)
    }
}

/// A page of the site: its file name and its HTML.
#[derive(Clone, Debug, PartialEq, Eq)]
pub struct DocPage {
    pub file_name: String,
    pub html: String,
}

/// The `(page name, title)` of each Markdown file `(stem, text)`.
pub open spec fn page_entries(files: Seq<(Seq<char>, Seq<char>)>) -> Seq<(Seq<char>, Seq<char>)> {
    files.map_values(|f: (Seq<char>, Seq<char>)| (spec_out_stem(f.0), spec_doc_title(f.1)))
}

/// The search index entries `(file name, title)` of the pages.
pub open spec fn index_entries(files: Seq<(Seq<char>, Seq<char>)>) -> Seq<(Seq<char>, Seq<char>)> {
    page_entries(files).map_values(|e: (Seq<char>, Seq<char>)| (e.0 + ".html"@, e.1))
}

/// The HTML of the page of file `i`: its rendered Markdown in the site's
/// page, with a navigation that lists the pages up to and including it.
pub open spec fn spec_page_html(files: Seq<(Seq<char>, Seq<char>)>, i: int, theme: DocTheme, site: Seq<char>) -> Seq<
    char,
> {
    spec_render_shell(
        markdown_html(files[i].1),
        spec_doc_title(files[i].1),
        spec_render_nav(page_entries(files.take(i + 1)), spec_out_stem(files[i].0)),
        theme,
        site,
    )
}

/// One entry of the search index, as serde_json writes it pretty: an
/// object of its `path` and `title`, indented under the array.
pub open spec fn index_item(e: (Seq<char>, Seq<char>)) -> Seq<char> {
    "  {\n    \"path\": "@ + json_string(e.0) + ",\n    \"title\": "@ + json_string(e.1) + "\n  }"@
}

/// The entries, one after the other, separated by `,` and a line break.
pub open spec fn index_items(es: Seq<(Seq<char>, Seq<char>)>) -> Seq<char>
    decreases es.len(),
{
    if es.len() == 0 {
        Seq::empty()
    } else if es.len() == 1 {
        index_item(es[0])
    } else {
        index_items(es.drop_last()) + ",\n"@ + index_item(es.last())
    }
}

/// The search index of the pages: a pretty JSON array (two-space indent)
/// of `{path, title}` objects; `[]` when there is none.
pub open spec fn pretty_search_index(entries: Seq<(Seq<char>, Seq<char>)>) -> Seq<char> {
    if entries.len() == 0 {
        "[]"@
    } else {
        "[\n"@ + index_items(entries) + "\n]"@
    }
}

fn search_index_json(entries: &Vec<(String, String)>) -> (r: String)
    ensures
        r@ == pretty_search_index(pair_views(entries@)),
{
    let ghost ev = pair_views(entries@);
    if entries.len() == 0 {
        return to_owned_string("[]");
    }
    let mut out = to_owned_string("[\n");
    let ghost pre = out@;
    let mut i: usize = 0;
    while i < entries.len()
        invariant
            i <= entries@.len(),
            ev == pair_views(entries@),
            out@ == pre + index_items(ev.take(i as int)),
        decreases entries@.len() - i,
    {
        assert(ev.take(i + 1).drop_last() =~= ev.take(i as int));
        assert(ev[i as int] == (entries@[i as int].0@, entries@[i as int].1@));
        if i > 0 {
            push_str(&mut out, ",\n");
        } else {
            assert(ev.take(1) =~= seq![ev[0]]);
        }
        let ghost before = out@;
        push_str(&mut out, "  {\n    \"path\": ");
        push_json_string(&mut out, entries[i].0.as_str());
        push_str(&mut out, ",\n    \"title\": ");
        push_json_string(&mut out, entries[i].1.as_str());
        push_str(&mut out, "\n  }");
        assert(out@ =~= before + index_item(ev[i as int]));
        i = i + 1;
    }
    assert(ev.take(entries@.len() as int) =~= ev);
    push_str(&mut out, "\n]");
    out
}

/// The docs site of the Markdown files `(stem, text)` of a docs directory,
/// in the order given: a page per file (see `spec_page_html`) and, when
/// there is a page, the search index.
pub fn render_docs(files: &Vec<(String, String)>, theme: &DocTheme, site_name: &str) -> (r: (Vec<DocPage>, Option<String>))
    ensures
        r.0@.len() == files@.len(),
        forall|i: int|
            0 <= i < files@.len() ==> (#[trigger] r.0@[i]).file_name@ == spec_out_stem(files@[i].0@) + ".html"@
                && r.0@[i].html@ == spec_page_html(pair_views(files@), i, *theme, site_name@),
        files@.len() == 0 ==> r.1 is None,
        files@.len() > 0 ==> (r.1 matches Some(x) && x@ == pretty_search_index(index_entries(pair_views(files@)))),
{
    let ghost fv = pair_views(files@);
    let mut out: Vec<DocPage> = Vec::new();
    let mut pages: Vec<(String, String)> = Vec::new();
    let mut index: Vec<(String, String)> = Vec::new();
    let mut i: usize = 0;
    while i < files.len()
        invariant
            i <= files@.len(),
            fv == pair_views(files@),
            out@.len() == i,
            pair_views(pages@) == page_entries(fv.take(i as int)),
            pair_views(index@) == index_entries(fv.take(i as int)),
            forall|j: int|
                0 <= j < i ==> (#[trigger] out@[j]).file_name@ == spec_out_stem(fv[j].0) + ".html"@
                    && out@[j].html@ == spec_page_html(fv, j, *theme, site_name@),
        decreases files@.len() - i,
    {
        let (stem_in, md) = (&files[i].0, &files[i].1);
        let (title, body) = render_md(md.as_str());
        let stem = out_stem(stem_in.as_str());
        let ghost pv0 = pair_views(pages@);
        let ghost iv0 = pair_views(index@);
        pages.push((stem.clone(), title.clone()));
        proof {
            assert(fv.take(i + 1) =~= fv.take(i as int).push(fv[i as int]));
            assert(pair_views(pages@) =~= pv0.push((stem@, title@)));
            assert(page_entries(fv.take(i + 1)) =~= page_entries(fv.take(i as int)).push((stem@, title@)));
        }
        let nav = render_nav(&pages, stem.as_str());
        let html = render_shell(body.as_str(), title.as_str(), nav.as_str(), theme, site_name);
        let mut file_name = stem.clone();
        push_str(&mut file_name, ".html");
        index.push((file_name.clone(), title));
        proof {
            assert(pair_views(index@) =~= iv0.push((file_name@, spec_doc_title(fv[i as int].1))));
            assert(index_entries(fv.take(i + 1)) =~= index_entries(fv.take(i as int)).push(
                (file_name@, spec_doc_title(fv[i as int].1)),
            ));
        }
        out.push(DocPage { file_name, html });
        i = i + 1;
    }
    assert(fv.take(files@.len() as int) =~= fv);
    if i == 0 {
        (out, None)
    } else {
        let idx = search_index_json(&index);
        (out, Some(idx))
    }
}

} // verus!
