//! The text half of block rendering: inline content written as Pango markup,
//! which a label then shows.
use vstd::prelude::*;
use crate::text::chars_of;
use crate::text::string_from_chars;
use crate::ui::frontmatter::push_str_chars;
use super::types::Inline;

verus! {

/// A character as Pango markup shows it literally.
pub open spec fn pango_char(c: char) -> Seq<char> {
    if c == '&' {
        "&amp;"@
    } else if c == '<' {
        "&lt;"@
    } else if c == '>' {
        "&gt;"@
    } else {
        seq![c]
    }
}

/// Text escaped for Pango markup: `&`, `<` and `>` become entities.
pub open spec fn pango_text(s: Seq<char>) -> Seq<char>
    decreases s.len(),
{
    if s.len() == 0 {
        Seq::empty()
    } else {
        pango_text(s.drop_last()) + pango_char(s.last())
    }
}

/// The markup of one inline element.
pub open spec fn inline_markup(i: Inline) -> Seq<char>
    decreases i,
{
    match i {
        Inline::Text(s) => pango_text(s@),
        Inline::Emph(v) => "<i>"@ + inlines_markup(v@) + "</i>"@,
        Inline::Strong(v) => "<b>"@ + inlines_markup(v@) + "</b>"@,
        Inline::Code(s) => "<tt>"@ + pango_text(s@) + "</tt>"@,
        Inline::Strikeout(v) => "<s>"@ + inlines_markup(v@) + "</s>"@,
        Inline::Superscript(v) => "<sup>"@ + inlines_markup(v@) + "</sup>"@,
        Inline::Subscript(v) => "<sub>"@ + inlines_markup(v@) + "</sub>"@,
        Inline::Link { text, url } => "<span foreground='blue' underline='single'>"@
            + inlines_markup(text@) + "</span>"@,
        Inline::LineBreak => "\n"@,
        Inline::SoftBreak => " "@,
        Inline::Nbsp => "&nbsp;"@,
    }
}

/// The markup of a run of inline elements: each one's markup, in order.
pub open spec fn inlines_markup(s: Seq<Inline>) -> Seq<char>
    decreases s,
{
    if s.len() == 0 {
        Seq::empty()
    } else {
        inlines_markup(s.drop_last()) + inline_markup(s.last())
    }
}

/// Appends `s` escaped for Pango markup.
fn push_pango_text(out: &mut Vec<char>, s: &str)
    ensures
        final(out)@ == old(out)@ + pango_text(s@),
{
    let v = chars_of(s);
    let mut i: usize = 0;
    while i < v.len()
        invariant
            i <= v.len(),
            v@ == s@,
            out@ == old(out)@ + pango_text(v@.subrange(0, i as int)),
        decreases v.len() - i,
    {
        let c = v[i];
        if c == '&' {
            push_str_chars(out, "&amp;");
        } else if c == '<' {
            push_str_chars(out, "&lt;");
        } else if c == '>' {
            push_str_chars(out, "&gt;");
        } else {
            out.push(c);
        }
        assert(v@.subrange(0, i + 1).drop_last() =~= v@.subrange(0, i as int));
        i = i + 1;
        assert(out@ =~= old(out)@ + pango_text(v@.subrange(0, i as int)));
    }
    assert(v@.subrange(0, v.len() as int) =~= v@);
}

/// Text escaped for Pango markup: `&`, `<` and `>` become `&amp;`, `&lt;`
/// and `&gt;`; every other character stays.
pub fn escape_pango(text: &str) -> (r: String)
    ensures
        r@ == pango_text(text@),
{
    let mut out: Vec<char> = Vec::new();
    push_pango_text(&mut out, text);
    string_from_chars(&out)
}

/// Appends the markup of one inline element.
fn push_inline(out: &mut Vec<char>, inline: &Inline)
    ensures
        final(out)@ == old(out)@ + inline_markup(*inline),
    decreases inline,
{
    match inline {
        Inline::Text(s) => push_pango_text(out, s.as_str()),
        Inline::Emph(v) => {
            push_str_chars(out, "<i>");
            push_inlines(out, v);
            push_str_chars(out, "</i>");
        },
        Inline::Strong(v) => {
            push_str_chars(out, "<b>");
            push_inlines(out, v);
            push_str_chars(out, "</b>");
        },
        Inline::Code(s) => {
            push_str_chars(out, "<tt>");
            push_pango_text(out, s.as_str());
            push_str_chars(out, "</tt>");
        },
        Inline::Strikeout(v) => {
            push_str_chars(out, "<s>");
            push_inlines(out, v);
            push_str_chars(out, "</s>");
        },
        Inline::Superscript(v) => {
            push_str_chars(out, "<sup>");
            push_inlines(out, v);
            push_str_chars(out, "</sup>");
        },
        Inline::Subscript(v) => {
            push_str_chars(out, "<sub>");
            push_inlines(out, v);
            push_str_chars(out, "</sub>");
        },
        Inline::Link { text, url: _ } => {
            push_str_chars(out, "<span foreground='blue' underline='single'>");
            push_inlines(out, text);
            push_str_chars(out, "</span>");
        },
        Inline::LineBreak => push_str_chars(out, "\n"),
        Inline::SoftBreak => push_str_chars(out, " "),
        Inline::Nbsp => push_str_chars(out, "&nbsp;"),
    }
}

/// Appends the markup of a run of inline elements.
fn push_inlines(out: &mut Vec<char>, inlines: &Vec<Inline>)
    ensures
        final(out)@ == old(out)@ + inlines_markup(inlines@),
    decreases inlines,
{
    let mut i: usize = 0;
    while i < inlines.len()
        invariant
            i <= inlines.len(),
            out@ == old(out)@ + inlines_markup(inlines@.subrange(0, i as int)),
        decreases inlines.len() - i,
    {
        assert(inlines@.subrange(0, i + 1).drop_last() =~= inlines@.subrange(0, i as int));
        push_inline(out, &inlines[i]);
        i = i + 1;
        assert(out@ =~= old(out)@ + inlines_markup(inlines@.subrange(0, i as int)));
    }
    assert(inlines@.subrange(0, inlines.len() as int) =~= inlines@);
}

/// The Pango markup of one inline element: text escaped, emphasis, strong,
/// strikeout, super- and subscript wrapped in their tags, code in `<tt>`, a
/// link's text in a blue underlined span, a line break as a newline, a soft
/// break as a space and a non-breaking space as `&nbsp;`.
pub fn inline_to_pango(inline: &Inline) -> (r: String)
    ensures
        r@ == inline_markup(*inline),
{
    let mut out: Vec<char> = Vec::new();
    push_inline(&mut out, inline);
    string_from_chars(&out)
}

/// The Pango markup of a run of inline elements, one after another.
pub fn inlines_to_pango(inlines: &Vec<Inline>) -> (r: String)
    ensures
        r@ == inlines_markup(inlines@),
{
    let mut out: Vec<char> = Vec::new();
    push_inlines(&mut out, inlines);
    string_from_chars(&out)
}

} // verus!
