use crepuscularity_cli::docs::{
    doc_title, esc, out_stem, render_docs, render_md, render_nav, render_shell, DocPage, DocTheme,
};

fn theme() -> DocTheme {
    DocTheme {
        accent: "#f0a".to_string(),
        surface: "#111".to_string(),
        text: "#eee".to_string(),
        muted: "#999".to_string(),
        border: "#333".to_string(),
    }
}

#[test]
fn escaping_replaces_markup_characters() {
    assert_eq!(esc("a<b & \"c\">"), "a&lt;b &amp; &quot;c&quot;&gt;");
    assert_eq!(esc("&amp;"), "&amp;amp;");
    assert_eq!(esc("plain text"), "plain text");
    assert_eq!(esc(""), "");
}

#[test]
fn navigation_lists_pages_and_marks_the_current_one() {
    let pages = vec![("index".to_string(), "Home".to_string()), ("guide".to_string(), "A <b> guide".to_string())];
    let nav = render_nav(&pages, "guide");
    assert!(nav.starts_with("<nav aria-label=\"Documentation\"><div class=\"doc-search\">"));
    assert!(nav.contains("placeholder=\"Search docs…\""));
    assert!(nav.ends_with(
        "<ul class=\"doc-nav\" id=\"doc-nav-list\"><li><a href=\"index.html\">Home</a></li><li><a href=\"guide.html\" class=\"active\">A &lt;b&gt; guide</a></li></ul></nav>"
    ));
    let empty = render_nav(&Vec::new(), "x");
    assert!(empty.ends_with("<ul class=\"doc-nav\" id=\"doc-nav-list\"></ul></nav>"));
}

#[test]
fn page_titles_come_from_the_first_heading() {
    assert_eq!(doc_title("intro\n# Hello World \n# Other"), "Hello World");
    assert_eq!(doc_title("no heading\n## sub"), "Documentation");
    assert_eq!(doc_title("#  \n# Real"), "Real");
    assert_eq!(doc_title("#NoSpace"), "Documentation");
}

#[test]
fn markdown_renders_to_html() {
    let (title, body) = render_md("# T\n\nbody *x*\n");
    assert_eq!(title, "T");
    assert_eq!(body, "<h1>T</h1>\n<p>body <em>x</em></p>\n");
    let (_, table) = render_md("| a |\n|---|\n| 1 |\n");
    assert!(table.contains("<table>"));
    let (_, strike) = render_md("~~gone~~");
    assert!(strike.contains("<del>gone</del>"));
}

#[test]
fn readme_becomes_the_index_page() {
    assert_eq!(out_stem("README"), "index");
    assert_eq!(out_stem("ReadMe"), "index");
    assert_eq!(out_stem("guide"), "guide");
    assert_eq!(out_stem("READMEs"), "READMEs");
}

#[test]
fn the_page_shell_escapes_its_values() {
    let t = DocTheme { accent: "<a>".to_string(), ..theme() };
    let html = render_shell("<p>x</p>", "A & B", "<nav></nav>", &t, "Site \"1\"");
    assert!(html.starts_with("<!DOCTYPE html>\n<html lang=\"en\">\n<head>\n"));
    assert!(html.contains("<title>A &amp; B — Site &quot;1&quot;</title>"));
    assert!(html.contains(".doc-search input:focus{border-color:&lt;a&gt;}"));
    assert!(html.contains("<aside><a class=\"brand\" href=\"../index.html\">Site &quot;1&quot;</a><nav></nav></aside>\n<article><p>x</p></article>"));
    assert!(html.ends_with("</html>"));
}

#[test]
fn a_docs_site_has_a_page_per_file_and_a_search_index() {
    let files = vec![
        ("README".to_string(), "# Home\n\nwelcome".to_string()),
        ("guide".to_string(), "# Guide\n".to_string()),
    ];
    let (pages, index) = render_docs(&files, &theme(), "Site");
    assert_eq!(pages.len(), 2);
    assert_eq!(pages[0].file_name, "index.html");
    assert_eq!(pages[1].file_name, "guide.html");
    let first_nav = render_nav(&vec![("index".to_string(), "Home".to_string())], "index");
    assert_eq!(
        pages[0],
        DocPage {
            file_name: "index.html".to_string(),
            html: render_shell("<h1>Home</h1>\n<p>welcome</p>\n", "Home", &first_nav, &theme(), "Site"),
        }
    );
    assert!(pages[1].html.contains("<a href=\"index.html\">Home</a></li><li><a href=\"guide.html\" class=\"active\">Guide</a>"));
    assert_eq!(
        index,
        Some(
            "[\n  {\n    \"path\": \"index.html\",\n    \"title\": \"Home\"\n  },\n  {\n    \"path\": \"guide.html\",\n    \"title\": \"Guide\"\n  }\n]"
                .to_string()
        )
    );
    let (none, no_index) = render_docs(&Vec::new(), &theme(), "Site");
    assert!(none.is_empty());
    assert_eq!(no_index, None);
}

#[test]
fn the_search_index_is_pretty_json() {
    let files = vec![("a".to_string(), "# Say \"hi\"\\".to_string())];
    let (_, index) = render_docs(&files, &theme(), "S");
    let mut o = serde_json::Map::new();
    o.insert("path".to_string(), serde_json::Value::String("a.html".to_string()));
    o.insert("title".to_string(), serde_json::Value::String("Say \"hi\"\\".to_string()));
    let expected = serde_json::to_string_pretty(&vec![serde_json::Value::Object(o)]).unwrap();
    assert_eq!(index, Some(expected));
}
