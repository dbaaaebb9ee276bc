use knotty::ui::block_editor::renderer::{escape_pango, inline_to_pango, inlines_to_pango};
use knotty::ui::block_editor::types::Inline;

fn text(s: &str) -> Inline {
    Inline::Text(s.to_string())
}

#[test]
fn escape_pango_replaces_markup_characters() {
    assert_eq!(escape_pango("a & <b> \"q\""), "a &amp; &lt;b&gt; \"q\"");
    assert_eq!(escape_pango(""), "");
    assert_eq!(escape_pango("&amp;"), "&amp;amp;");
}

#[test]
fn inline_to_pango_wraps_each_style_in_its_tag() {
    assert_eq!(inline_to_pango(&Inline::Emph(vec![text("x")])), "<i>x</i>");
    assert_eq!(inline_to_pango(&Inline::Strong(vec![text("x")])), "<b>x</b>");
    assert_eq!(inline_to_pango(&Inline::Strikeout(vec![text("x")])), "<s>x</s>");
    assert_eq!(inline_to_pango(&Inline::Superscript(vec![text("2")])), "<sup>2</sup>");
    assert_eq!(inline_to_pango(&Inline::Subscript(vec![text("i")])), "<sub>i</sub>");
    assert_eq!(inline_to_pango(&Inline::Code("a<b".to_string())), "<tt>a&lt;b</tt>");
}

#[test]
fn inline_to_pango_shows_links_as_styled_text() {
    let link = Inline::Link {
        text: vec![Inline::Strong(vec![text("docs")])],
        url: "https://example.com/?a=1&b=2".to_string(),
    };
    assert_eq!(
        inline_to_pango(&link),
        "<span foreground='blue' underline='single'><b>docs</b></span>"
    );
}

#[test]
fn inlines_to_pango_concatenates_in_order() {
    let run = vec![
        text("a"),
        Inline::SoftBreak,
        Inline::Code("<c>".to_string()),
        Inline::LineBreak,
        Inline::Nbsp,
        Inline::Emph(vec![text("x & y"), Inline::Strong(vec![text("z")])]),
    ];
    assert_eq!(inlines_to_pango(&run), "a <tt>&lt;c&gt;</tt>\n&nbsp;<i>x &amp; y<b>z</b></i>");
    assert_eq!(inlines_to_pango(&Vec::new()), "");
}
