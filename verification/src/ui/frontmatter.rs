//! Front matter of a note (the `---` block at its top), note titles, and
//! the plain preview's markup.
use vstd::prelude::*;
use vstd::string::*;
use crate::client::slice_chars;
use crate::text::{
    chars_of, has_prefix_at, occurs_at, string_from_chars, trim, trim_bounds, trim_end,
    trim_start, is_space, lead_spaces, trail_spaces, lemma_lead_spaces_bound, lemma_trail_spaces_bound,
    skip_spaces, end_before_spaces,
};
use crate::ui::editor_commands::{join_lines, lines_of, split_lines, starts_with};

verus! {

/// The front matter and the body of a note's text: a text that starts with
/// `---` and a newline and later holds a newline, `---` and a newline has
/// front matter up to that later line; any other text is all body.
pub open spec fn frontmatter_split(content: Seq<char>) -> (Option<Seq<char>>, Seq<char>) {
    let rest = content.subrange(4, content.len() as int);
    if starts_with(content, "---\n"@) && exists|k: int| occurs_at(rest, "\n---\n"@, k) {
        let k = choose|k: int|
            occurs_at(rest, "\n---\n"@, k) && forall|j: int| 0 <= j < k ==> !occurs_at(rest, "\n---\n"@, j);
        (Some(rest.subrange(0, k)), rest.subrange(k + 5, rest.len() as int))
    } else {
        (None, content)
    }
}

/// Splits a note's text into its front matter (if any) and body.
pub fn split_frontmatter(content: &str) -> (r: (Option<String>, String))
    ensures
        (match r.0 {
            Some(f) => Some(f@),
            None => None,
        }, r.1@) == frontmatter_split(content@),
{
    let v = chars_of(content);
    let open = chars_of("---\n");
    let close = chars_of("\n---\n");
    proof {
        reveal_strlit("---\n");
        reveal_strlit("\n---\n");
    }
    if has_prefix_at(&v, 0, &open) {
        let rest = slice_chars(&v, 4, v.len());
        assert(rest@ == content@.subrange(4, content@.len() as int));
        assert(v@.subrange(0, 4) == content@.subrange(0, 4));
        match crate::text::find_from(&rest, &close, 0) {
            Some(k) => {
                proof {
                    let c = choose|j: int|
                        occurs_at(rest@, "\n---\n"@, j) && forall|i: int|
                            0 <= i < j ==> !occurs_at(rest@, "\n---\n"@, i);
                    assert(occurs_at(rest@, "\n---\n"@, k as int));
                    if c < k {
                    } else if c > k {
                    }
                    assert(c == k);
                }
                let front = string_from_chars(&slice_chars(&rest, 0, k));
                let body = string_from_chars(&slice_chars(&rest, k + 5, rest.len()));
                return (Some(front), body);
            },
            None => {
                assert(!exists|k: int| occurs_at(rest@, "\n---\n"@, k));
            },
        }
    }
    (None, String::from_str(content))
}

/// The title a markdown text gives: the first line that, trimmed, starts
/// with `# `, without that marker and trimmed again; else `Untitled`.
pub open spec fn title_from_lines(ls: Seq<Seq<char>>, i: int) -> Seq<char>
    decreases ls.len() - i,
{
    if i < 0 || i >= ls.len() {
        "Untitled"@
    } else if starts_with(trim(ls[i]), "# "@) {
        trim(trim(ls[i]).subrange(2, trim(ls[i]).len() as int))
    } else {
        title_from_lines(ls, i + 1)
    }
}

/// The title a markdown text gives by its first level-one heading.
pub fn extract_title_from_markdown(content: &str) -> (r: String)
    ensures
        r@ == title_from_lines(lines_of(content@), 0),
{
    let v = chars_of(content);
    let ls = split_lines(&v);
    let ghost lv = ls@.map_values(|l: Vec<char>| l@);
    let hash = chars_of("# ");
    proof {
        reveal_strlit("# ");
    }
    let mut i: usize = 0;
    while i < ls.len()
        invariant
            i <= ls.len(),
            lv == ls@.map_values(|l: Vec<char>| l@),
            lv == lines_of(content@),
            hash@ == "# "@,
            title_from_lines(lv, i as int) == title_from_lines(lv, 0),
        decreases ls.len() - i,
    {
        let line = &ls[i];
        assert(line@ == lv[i as int]);
        proof {
            reveal_strlit("# ");
        }
        let (a, b) = trim_bounds(line);
        let t = slice_chars(line, a, b);
        if has_prefix_at(&t, 0, &hash) {
            assert(t@.subrange(0, 2) == "# "@);
            let rest = slice_chars(&t, 2, t.len());
            let (x, y) = trim_bounds(&rest);
            return string_from_chars(&slice_chars(&rest, x, y));
        }
        i = i + 1;
    }
    String::from_str("Untitled")
}

/// A character as it is written in Pango markup.
pub open spec fn escape_char(c: char) -> Seq<char> {
    if c == '&' {
        "&amp;"@
    } else if c == '<' {
        "&lt;"@
    } else if c == '>' {
        "&gt;"@
    } else if c == '"' {
        "&quot;"@
    } else {
        seq![c]
    }
}

/// Text as it is written in Pango markup.
pub open spec fn escape_seq(s: Seq<char>) -> Seq<char>
    decreases s.len(),
{
    if s.len() == 0 {
        Seq::empty()
    } else {
        escape_seq(s.drop_last()) + escape_char(s.last())
    }
}

/// Escapes text for Pango markup.
pub fn escape_markup(text: &Vec<char>, from: usize, to: usize) -> (r: Vec<char>)
    requires
        from <= to <= text.len(),
    ensures
        r@ == escape_seq(text@.subrange(from as int, to as int)),
{
    let mut out: Vec<char> = Vec::new();
    let mut i = from;
    while i < to
        invariant
            from <= i <= to <= text.len(),
            out@ == escape_seq(text@.subrange(from as int, i as int)),
        decreases to - i,
    {
        let c = text[i];
        let ghost before = out@;
        if c == '&' {
            push_str_chars(&mut out, "&amp;");
        } else if c == '<' {
            push_str_chars(&mut out, "&lt;");
        } else if c == '>' {
            push_str_chars(&mut out, "&gt;");
        } else if c == '"' {
            push_str_chars(&mut out, "&quot;");
        } else {
            out.push(c);
        }
        assert(text@.subrange(from as int, i + 1).drop_last() =~= text@.subrange(from as int, i as int));
        i = i + 1;
        assert(out@ =~= escape_seq(text@.subrange(from as int, i as int)));
    }
    out
}

/// Appends the characters of a string literal.
pub fn push_str_chars(out: &mut Vec<char>, s: &str)
    ensures
        final(out)@ == old(out)@ + s@,
{
    let v = chars_of(s);
    let mut i: usize = 0;
    while i < v.len()
        invariant
            i <= v.len(),
            v@ == s@,
            out@ == old(out)@ + v@.subrange(0, i as int),
        decreases v.len() - i,
    {
        out.push(v[i]);
        i = i + 1;
        assert(out@ =~= old(out)@ + v@.subrange(0, i as int));
    }
    assert(v@.subrange(0, v.len() as int) =~= v@);
}

/// The preview markup for one line of the body.
pub open spec fn preview_line(line: Seq<char>) -> Seq<char> {
    if starts_with(line, "# "@) {
        "<span size='large' weight='bold'>"@ + escape_seq(line.subrange(2, line.len() as int))
            + "</span>"@
    } else if starts_with(line, "## "@) {
        "<span weight='bold'>"@ + escape_seq(line.subrange(3, line.len() as int)) + "</span>"@
    } else if starts_with(line, "- "@) || starts_with(line, "* "@) {
        "  • "@ + escape_seq(line.subrange(2, line.len() as int))
    } else {
        escape_seq(line)
    }
}

/// The preview markup of a note: one entry per line of its body, front
/// matter left out.
pub fn preview_markup_lines(content: &str) -> (r: Vec<String>)
    ensures
        r@.map_values(|s: String| s@) == lines_of(frontmatter_split(content@).1).map_values(
            |l: Seq<char>| preview_line(l),
        ),
{
    let (_, body) = split_frontmatter(content);
    let bv = chars_of(body.as_str());
    let ls = split_lines(&bv);
    let ghost lv = ls@.map_values(|l: Vec<char>| l@);
    let mut out: Vec<String> = Vec::new();
    let h1 = chars_of("# ");
    let h2 = chars_of("## ");
    let b1 = chars_of("- ");
    let b2 = chars_of("* ");
    proof {
        reveal_strlit("# ");
        reveal_strlit("## ");
        reveal_strlit("- ");
        reveal_strlit("* ");
    }
    let mut i: usize = 0;
    while i < ls.len()
        invariant
            i <= ls.len(),
            lv == ls@.map_values(|l: Vec<char>| l@),
            lv == lines_of(bv@),
            h1@ == "# "@,
            h2@ == "## "@,
            b1@ == "- "@,
            b2@ == "* "@,
            out@.len() == i,
            forall|k: int| 0 <= k < i ==> (#[trigger] out@[k])@ == preview_line(lv[k]),
        decreases ls.len() - i,
    {
        let line = &ls[i];
        assert(line@ == lv[i as int]);
        proof {
            reveal_strlit("# ");
            reveal_strlit("## ");
            reveal_strlit("- ");
            reveal_strlit("* ");
        }
        let n = line.len();
        let mut m: Vec<char> = Vec::new();
        if has_prefix_at(line, 0, &h1) {
            assert(line@.subrange(0, 2) == "# "@);
            push_str_chars(&mut m, "<span size='large' weight='bold'>");
            let e = escape_markup(line, 2, n);
            crate::text::push_chars_vec(&mut m, &e);
            push_str_chars(&mut m, "</span>");
        } else if has_prefix_at(line, 0, &h2) {
            assert(line@.subrange(0, 3) == "## "@);
            push_str_chars(&mut m, "<span weight='bold'>");
            let e = escape_markup(line, 3, n);
            crate::text::push_chars_vec(&mut m, &e);
            push_str_chars(&mut m, "</span>");
        } else if has_prefix_at(line, 0, &b1) || has_prefix_at(line, 0, &b2) {
            push_str_chars(&mut m, "  • ");
            let e = escape_markup(line, 2, n);
            crate::text::push_chars_vec(&mut m, &e);
        } else {
            m = escape_markup(line, 0, n);
            assert(line@.subrange(0, n as int) =~= line@);
        }
        assert(m@ =~= preview_line(lv[i as int]));
        out.push(string_from_chars(&m));
        i = i + 1;
    }
    assert(out@.map_values(|s: String| s@) =~= lv.map_values(|l: Seq<char>| preview_line(l)));
    out
}

// ===== Sorting by key =====

/// Whether `a` sorts strictly before `b` (by code points, as `str` orders).
pub open spec fn key_lt(a: Seq<char>, b: Seq<char>) -> bool
    decreases a.len(),
{
    if b.len() == 0 {
        false
    } else if a.len() == 0 {
        true
    } else if (a[0] as u32) < (b[0] as u32) {
        true
    } else if (a[0] as u32) > (b[0] as u32) {
        false
    } else {
        key_lt(a.drop_first(), b.drop_first())
    }
}

/// Whether `a` sorts strictly before `b`.
pub fn chars_lt(a: &Vec<char>, b: &Vec<char>) -> (r: bool)
    ensures
        r == key_lt(a@, b@),
{
    let mut i: usize = 0;
    assert(a@.subrange(0, a.len() as int) =~= a@);
    assert(b@.subrange(0, b.len() as int) =~= b@);
    while i < a.len() && i < b.len() && (a[i] as u32) == (b[i] as u32)
        invariant
            i <= a.len(),
            i <= b.len(),
            key_lt(a@, b@) == key_lt(a@.subrange(i as int, a.len() as int), b@.subrange(i as int, b.len() as int)),
        decreases a.len() - i,
    {
        assert(a@.subrange(i as int, a.len() as int).drop_first() =~= a@.subrange(i + 1, a.len() as int));
        assert(b@.subrange(i as int, b.len() as int).drop_first() =~= b@.subrange(i + 1, b.len() as int));
        i = i + 1;
    }
    if i >= b.len() {
        return false;
    }
    if i >= a.len() {
        return true;
    }
    assert(a@.subrange(i as int, a.len() as int)[0] == a@[i as int]);
    assert(b@.subrange(i as int, b.len() as int)[0] == b@[i as int]);
    (a[i] as u32) < (b[i] as u32)
}

/// A key/value pair as plain values.
pub open spec fn pair_view(p: (String, String)) -> (Seq<char>, Seq<char>) {
    (p.0@, p.1@)
}

/// The views of a list of pairs.
pub open spec fn pairs_view(v: Seq<(String, String)>) -> Seq<(Seq<char>, Seq<char>)> {
    v.map_values(|p: (String, String)| pair_view(p))
}

/// Where a pair with key `k` goes in the sorted list `s`: after every entry
/// whose key does not sort after `k`.
pub open spec fn insert_pos(s: Seq<(Seq<char>, Seq<char>)>, k: Seq<char>) -> int
    decreases s.len(),
{
    if s.len() == 0 {
        0
    } else if key_lt(k, s.last().0) {
        insert_pos(s.drop_last(), k)
    } else {
        s.len() as int
    }
}

/// `s` sorted by key, keeping pairs with equal keys in their order (as a
/// stable sort by key does).
pub open spec fn sort_by_key(s: Seq<(Seq<char>, Seq<char>)>) -> Seq<(Seq<char>, Seq<char>)>
    decreases s.len(),
{
    if s.len() == 0 {
        s
    } else {
        let p = sort_by_key(s.drop_last());
        p.insert(insert_pos(p, s.last().0), s.last())
    }
}

proof fn lemma_insert_pos_bound(s: Seq<(Seq<char>, Seq<char>)>, k: Seq<char>)
    ensures
        0 <= insert_pos(s, k) <= s.len(),
    decreases s.len(),
{
    if s.len() > 0 && key_lt(k, s.last().0) {
        lemma_insert_pos_bound(s.drop_last(), k);
    }
}

proof fn lemma_sort_len(s: Seq<(Seq<char>, Seq<char>)>)
    ensures
        sort_by_key(s).len() == s.len(),
    decreases s.len(),
{
    if s.len() > 0 {
        lemma_sort_len(s.drop_last());
        lemma_insert_pos_bound(sort_by_key(s.drop_last()), s.last().0);
    }
}

/// Sorts pairs by key, stably.
pub fn sort_pairs_by_key(pairs: &Vec<(String, String)>) -> (r: Vec<(String, String)>)
    ensures
        pairs_view(r@) == sort_by_key(pairs_view(pairs@)),
{
    let mut out: Vec<(String, String)> = Vec::new();
    let mut i: usize = 0;
    while i < pairs.len()
        invariant
            i <= pairs.len(),
            pairs_view(out@) == sort_by_key(pairs_view(pairs@.subrange(0, i as int))),
        decreases pairs.len() - i,
    {
        let ghost sorted = pairs_view(out@);
        let key = chars_of(pairs[i].0.as_str());
        let mut pos: usize = out.len();
        assert(sorted.subrange(0, out.len() as int) =~= sorted);
        while pos > 0 && chars_lt(&key, &chars_of(out[pos - 1].0.as_str()))
            invariant
                pos <= out.len(),
                sorted == pairs_view(out@),
                key@ == pairs@[i as int].0@,
                insert_pos(sorted, key@) == insert_pos(sorted.subrange(0, pos as int), key@),
            decreases pos,
        {
            assert(sorted.subrange(0, pos as int).drop_last() =~= sorted.subrange(0, pos - 1));
            pos = pos - 1;
        }
        proof {
            lemma_insert_pos_bound(sorted, key@);
        }
        let item = (pairs[i].0.clone(), pairs[i].1.clone());
        out.insert(pos, item);
        proof {
            let prefix = pairs_view(pairs@.subrange(0, i + 1));
            assert(prefix.drop_last() =~= pairs_view(pairs@.subrange(0, i as int)));
            assert(prefix.last() == pair_view(pairs@[i as int]));
            assert(pairs_view(out@) =~= sorted.insert(pos as int, pair_view(pairs@[i as int])));
        }
        i = i + 1;
    }
    assert(pairs@.subrange(0, pairs.len() as int) =~= pairs@);
    out
}

// ===== The metadata form =====

/// The fields the metadata editor shows.
#[derive(Debug, Clone)]
pub struct MetadataForm {
    pub title: String,
    pub description: String,
    pub tags: Vec<String>,
    pub extra_fields: Vec<(String, String)>,
    /// Front-matter lines the form cannot show, kept as they were.
    pub preserved_lines: Vec<String>,
}

/// The views of a list of strings.
pub open spec fn views(v: Seq<String>) -> Seq<Seq<char>> {
    v.map_values(|s: String| s@)
}

/// Strings joined with `sep` between them.
pub open spec fn join_with(ls: Seq<Seq<char>>, sep: Seq<char>) -> Seq<char>
    decreases ls.len(),
{
    if ls.len() == 0 {
        Seq::empty()
    } else if ls.len() == 1 {
        ls[0]
    } else {
        join_with(ls.drop_last(), sep) + sep + ls.last()
    }
}

/// The front-matter line of each extra field that has both a key and a value.
pub open spec fn extra_lines(s: Seq<(Seq<char>, Seq<char>)>) -> Seq<Seq<char>>
    decreases s.len(),
{
    if s.len() == 0 {
        Seq::empty()
    } else {
        let (k, v) = s.last();
        extra_lines(s.drop_last()) + if trim(k).len() > 0 && trim(v).len() > 0 {
            seq![trim(k) + ": "@ + trim(v)]
        } else {
            Seq::empty()
        }
    }
}

/// The front-matter lines a form is written as: title, description and
/// tags when given, the extra fields by key, then the preserved lines.
pub open spec fn form_lines(
    title: Seq<char>,
    description: Seq<char>,
    tags: Seq<Seq<char>>,
    extra: Seq<(Seq<char>, Seq<char>)>,
    preserved: Seq<Seq<char>>,
) -> Seq<Seq<char>> {
    (if trim(title).len() > 0 {
        seq!["title: "@ + trim(title)]
    } else {
        Seq::empty()
    }) + (if trim(description).len() > 0 {
        seq!["description: "@ + trim(description)]
    } else {
        Seq::empty()
    }) + (if tags.len() > 0 {
        seq!["tags: ["@ + join_with(tags, ", "@) + "]"@]
    } else {
        Seq::empty()
    }) + extra_lines(sort_by_key(extra)) + preserved
}

/// The lines of a form, as plain values.
pub open spec fn lines_of_form(f: MetadataForm) -> Seq<Seq<char>> {
    form_lines(f.title@, f.description@, views(f.tags@), pairs_view(f.extra_fields@), views(f.preserved_lines@))
}

/// The trimmed characters of a string.
fn trimmed_chars(s: &str) -> (r: Vec<char>)
    ensures
        r@ == trim(s@),
{
    let v = chars_of(s);
    let (a, b) = trim_bounds(&v);
    slice_chars(&v, a, b)
}

/// Appends `label` and `v` as one new line.
fn push_line(lines: &mut Vec<String>, label: &str, v: &Vec<char>, close: &str)
    ensures
        views(final(lines)@) == views(old(lines)@).push(label@ + v@ + close@),
{
    let mut l: Vec<char> = Vec::new();
    push_str_chars(&mut l, label);
    crate::text::push_chars_vec(&mut l, v);
    push_str_chars(&mut l, close);
    let ghost before = views(lines@);
    lines.push(string_from_chars(&l));
    assert(views(lines@) =~= before.push(label@ + v@ + close@));
}

/// Strings joined with `sep` between them.
pub fn join_strings(ls: &Vec<String>, sep: &str) -> (r: Vec<char>)
    ensures
        r@ == join_with(views(ls@), sep@),
{
    let mut out: Vec<char> = Vec::new();
    let mut i: usize = 0;
    while i < ls.len()
        invariant
            i <= ls.len(),
            out@ == join_with(views(ls@.subrange(0, i as int)), sep@),
        decreases ls.len() - i,
    {
        let ghost next = views(ls@.subrange(0, i + 1));
        assert(next.drop_last() =~= views(ls@.subrange(0, i as int)));
        if i > 0 {
            push_str_chars(&mut out, sep);
        }
        let c = chars_of(ls[i].as_str());
        crate::text::push_chars_vec(&mut out, &c);
        assert(out@ =~= join_with(next, sep@));
        i = i + 1;
    }
    assert(ls@.subrange(0, ls.len() as int) =~= ls@);
    out
}

/// The front-matter lines a form is written as.
pub fn frontmatter_lines(form: &MetadataForm) -> (r: Vec<String>)
    ensures
        views(r@) == lines_of_form(*form),
{
    let mut lines: Vec<String> = Vec::new();
    let t = trimmed_chars(form.title.as_str());
    if t.len() > 0 {
        push_line(&mut lines, "title: ", &t, "");
    }
    let d = trimmed_chars(form.description.as_str());
    if d.len() > 0 {
        push_line(&mut lines, "description: ", &d, "");
    }
    if form.tags.len() > 0 {
        let j = join_strings(&form.tags, ", ");
        push_line(&mut lines, "tags: [", &j, "]");
    }
    proof {
        reveal_strlit("");
    }
    let ghost head = views(lines@);
    let sorted = sort_pairs_by_key(&form.extra_fields);
    let ghost sv = pairs_view(sorted@);
    let mut i: usize = 0;
    while i < sorted.len()
        invariant
            i <= sorted.len(),
            sv == pairs_view(sorted@),
            views(lines@) == head + extra_lines(sv.subrange(0, i as int)),
        decreases sorted.len() - i,
    {
        let k = trimmed_chars(sorted[i].0.as_str());
        let v = trimmed_chars(sorted[i].1.as_str());
        assert(sv.subrange(0, i + 1).drop_last() =~= sv.subrange(0, i as int));
        if k.len() > 0 && v.len() > 0 {
            let mut l = k;
            push_str_chars(&mut l, ": ");
            crate::text::push_chars_vec(&mut l, &v);
            let ghost before = views(lines@);
            lines.push(string_from_chars(&l));
            assert(views(lines@) =~= before.push(l@));
        }
        assert(views(lines@) =~= head + extra_lines(sv.subrange(0, i + 1)));
        i = i + 1;
    }
    assert(sv.subrange(0, sorted.len() as int) =~= sv);
    let ghost mid = views(lines@);
    let mut j: usize = 0;
    while j < form.preserved_lines.len()
        invariant
            j <= form.preserved_lines.len(),
            views(lines@) == mid + views(form.preserved_lines@.subrange(0, j as int)),
        decreases form.preserved_lines.len() - j,
    {
        let ghost before = views(lines@);
        let line = form.preserved_lines[j].clone();
        lines.push(line);
        assert(views(lines@) =~= before.push(form.preserved_lines@[j as int]@));
        j = j + 1;
        assert(views(lines@) =~= mid + views(form.preserved_lines@.subrange(0, j as int)));
    }
    assert(form.preserved_lines@.subrange(0, form.preserved_lines.len() as int) =~= form.preserved_lines@);
    assert(views(lines@) =~= lines_of_form(*form));
    lines
}

/// A note's text rebuilt from its body and a form: the body alone when the
/// form has no lines, else the lines between `---` markers, then the body.
pub open spec fn rebuilt_content(body: Seq<char>, lines: Seq<Seq<char>>) -> Seq<char> {
    if lines.len() == 0 {
        body
    } else {
        "---\n"@ + join_lines(lines) + "\n---\n"@ + body
    }
}

/// Rebuilds a note's text from its body and the metadata form.
pub fn rebuild_content_with_metadata(body: &str, form: &MetadataForm) -> (r: String)
    ensures
        r@ == rebuilt_content(body@, lines_of_form(*form)),
{
    let lines = frontmatter_lines(form);
    if lines.len() == 0 {
        return String::from_str(body);
    }
    let mut out: Vec<char> = Vec::new();
    push_str_chars(&mut out, "---\n");
    let joined = join_strings(&lines, "\n");
    proof {
        reveal_strlit("\n");
        lemma_join_newlines(views(lines@));
    }
    crate::text::push_chars_vec(&mut out, &joined);
    push_str_chars(&mut out, "\n---\n");
    let b = chars_of(body);
    crate::text::push_chars_vec(&mut out, &b);
    string_from_chars(&out)
}

/// A front-matter line that reads back as itself: one line, and not the
/// `---` that closes the front matter.
pub open spec fn plain_line(l: Seq<char>) -> bool {
    !l.contains('\n') && l != "---"@
}

/// Lines that are each plain hold no closing marker before their end: in a
/// text that starts with the lines joined and continues with a newline, no
/// newline, `---` and newline starts inside the joined lines.
proof fn lemma_no_close_inside(ls: Seq<Seq<char>>, s: Seq<char>)
    requires
        ls.len() > 0,
        forall|i: int| 0 <= i < ls.len() ==> plain_line(#[trigger] ls[i]),
        join_lines(ls).len() < s.len(),
        s.subrange(0, join_lines(ls).len() as int) == join_lines(ls),
        s[join_lines(ls).len() as int] == '\n',
    ensures
        forall|j: int| 0 <= j < join_lines(ls).len() ==> !occurs_at(s, "\n---\n"@, j),
    decreases ls.len(),
{
    reveal_strlit("\n---\n");
    reveal_strlit("---");
    let jn = join_lines(ls);
    let m = "\n---\n"@;
    if ls.len() == 1 {
        let l = ls[0];
        assert(plain_line(ls[0]));
        assert forall|j: int| 0 <= j < jn.len() implies !occurs_at(s, m, j) by {
            assert(s[j] == s.subrange(0, jn.len() as int)[j]);
            assert(l[j] != '\n') by {
                if l[j] == '\n' {
                    assert(l.contains('\n'));
                }
            }
            if occurs_at(s, m, j) {
                assert(s.subrange(j, j + 5)[0] == s[j]);
            }
        }
    } else {
        let front = ls.drop_last();
        let l = ls.last();
        let jf = join_lines(front);
        assert(jn == jf + seq!['\n'] + l);
        assert forall|i: int| 0 <= i < front.len() implies plain_line(#[trigger] front[i]) by {
            assert(front[i] == ls[i]);
        }
        assert(plain_line(ls[ls.len() - 1]));
        assert(s.subrange(0, jf.len() as int) =~= jf) by {
            assert forall|k: int| 0 <= k < jf.len() implies s.subrange(0, jf.len() as int)[k] == jf[k] by {
                assert(s[k] == s.subrange(0, jn.len() as int)[k]);
                assert(jn[k] == jf[k]);
            }
        }
        assert(s[jf.len() as int] == '\n') by {
            assert(s[jf.len() as int] == s.subrange(0, jn.len() as int)[jf.len() as int]);
        }
        lemma_no_close_inside(front, s);
        let a = jf.len() + 1;
        assert forall|k: int| 0 <= k < l.len() implies s[a + k] == l[k] by {
            assert(s[a + k] == s.subrange(0, jn.len() as int)[a + k]);
            assert(jn[a + k] == l[k]);
        }
        assert forall|j: int| 0 <= j < jn.len() implies !occurs_at(s, m, j) by {
            if j >= jf.len() && occurs_at(s, m, j) {
                let w = s.subrange(j, j + 5);
                assert(w[0] == s[j] && w[1] == s[j + 1] && w[2] == s[j + 2] && w[3] == s[j + 3] && w[4]
                    == s[j + 4]);
                if j > jf.len() {
                    assert(s[j] == l[j - a]);
                    assert(l.contains('\n'));
                } else if l.len() >= 4 {
                    assert(s[j + 4] == l[3]);
                    assert(l.contains('\n'));
                } else if l.len() == 3 {
                    assert(l =~= "---"@);
                } else {
                    assert(s[(a + l.len()) as int] == '\n');
                }
            }
        }
    }
}

/// Rebuilding keeps what it was given: splitting a text rebuilt from a body
/// and a form that writes at least one line gives back those lines as the
/// front matter and the body unchanged, as long as no line holds a newline
/// or is the closing `---` itself.
pub proof fn law_rebuilt_content_splits_back(body: Seq<char>, form: MetadataForm)
    requires
        lines_of_form(form).len() > 0,
        forall|i: int|
            0 <= i < lines_of_form(form).len() ==> plain_line(#[trigger] lines_of_form(form)[i]),
    ensures
        frontmatter_split(rebuilt_content(body, lines_of_form(form))) == (
            Some(join_lines(lines_of_form(form))),
            body,
        ),
{
    reveal_strlit("---\n");
    reveal_strlit("\n---\n");
    let ls = lines_of_form(form);
    let jn = join_lines(ls);
    let m = "\n---\n"@;
    let content = rebuilt_content(body, ls);
    assert(content == "---\n"@ + jn + m + body);
    let rest = content.subrange(4, content.len() as int);
    assert(rest =~= jn + m + body);
    assert(starts_with(content, "---\n"@)) by {
        assert(content.subrange(0, 4) =~= "---\n"@);
    }
    assert(rest.subrange(0, jn.len() as int) =~= jn);
    assert(rest[jn.len() as int] == '\n');
    lemma_no_close_inside(ls, rest);
    let k0 = jn.len() as int;
    assert(occurs_at(rest, m, k0)) by {
        assert(rest.subrange(k0, k0 + 5) =~= m);
    }
    let c = choose|k: int|
        occurs_at(rest, m, k) && forall|j: int| 0 <= j < k ==> !occurs_at(rest, m, j);
    assert(occurs_at(rest, m, k0) && forall|j: int| 0 <= j < k0 ==> !occurs_at(rest, m, j));
    assert(c == k0) by {
        if c < k0 {
        } else if c > k0 {
        }
    }
    assert(rest.subrange(0, k0) =~= jn);
    assert(rest.subrange(k0 + 5, rest.len() as int) =~= body);
}

proof fn lemma_join_newlines(ls: Seq<Seq<char>>)
    ensures
        join_with(ls, "\n"@) == join_lines(ls),
    decreases ls.len(),
{
    reveal_strlit("\n");
    if ls.len() > 1 {
        lemma_join_newlines(ls.drop_last());
    }
}

// ===== Reading front matter =====

/// `s` without its leading repetitions of `c`.
pub open spec fn strip_lead_char(s: Seq<char>, c: char) -> Seq<char>
    decreases s.len(),
{
    if s.len() > 0 && s[0] == c {
        strip_lead_char(s.drop_first(), c)
    } else {
        s
    }
}

/// `s` without its trailing repetitions of `c`.
pub open spec fn strip_trail_char(s: Seq<char>, c: char) -> Seq<char>
    decreases s.len(),
{
    if s.len() > 0 && s.last() == c {
        strip_trail_char(s.drop_last(), c)
    } else {
        s
    }
}

/// The position of the first `c` in `s` at or after `i` (the length if none).
pub open spec fn next_char(s: Seq<char>, i: int, c: char) -> int
    decreases s.len() - i,
{
    if i >= s.len() {
        s.len() as int
    } else if s[i] == c {
        i
    } else {
        next_char(s, i + 1, c)
    }
}

pub proof fn lemma_next_char_bound(s: Seq<char>, i: int, c: char)
    requires
        0 <= i <= s.len(),
    ensures
        i <= next_char(s, i, c) <= s.len(),
        next_char(s, i, c) < s.len() ==> s[next_char(s, i, c)] == c,
        forall|k: int| i <= k < next_char(s, i, c) ==> s[k] != c,
    decreases s.len() - i,
{
    if i < s.len() && s[i] != c {
        lemma_next_char_bound(s, i + 1, c);
    }
}

/// The comma-separated pieces of `s` from offset `i` on, as `str::split`
/// gives them (always at least one piece).
pub open spec fn pieces_from(s: Seq<char>, i: int) -> Seq<Seq<char>>
    decreases s.len() + 1 - i,
{
    if i < 0 || i > s.len() {
        Seq::empty()
    } else {
        let j = next_char(s, i, ',');
        proof {
            lemma_next_char_bound(s, i, ',');
        }
        if j >= s.len() {
            seq![s.subrange(i, s.len() as int)]
        } else {
            seq![s.subrange(i, j)] + pieces_from(s, j + 1)
        }
    }
}

/// A piece of a tag list trimmed and unquoted.
pub open spec fn tag_of(p: Seq<char>) -> Seq<char> {
    strip_trail_char(strip_lead_char(trim(p), '"'), '"')
}

/// The non-empty tags among the pieces.
pub open spec fn keep_tags(ps: Seq<Seq<char>>) -> Seq<Seq<char>>
    decreases ps.len(),
{
    if ps.len() == 0 {
        Seq::empty()
    } else {
        keep_tags(ps.drop_last()) + if tag_of(ps.last()).len() > 0 {
            seq![tag_of(ps.last())]
        } else {
            Seq::empty()
        }
    }
}

/// The tags an inline list such as `[a, "b"]` names.
pub open spec fn tag_list(value: Seq<char>) -> Seq<Seq<char>> {
    keep_tags(pieces_from(strip_trail_char(strip_lead_char(trim(value), '['), ']'), 0))
}

/// Bounds `(a, b)` with `v[a..b]` equal to `v[from..to]` without leading
/// and trailing repetitions of `c`.
fn strip_char_bounds(v: &Vec<char>, from: usize, to: usize, c: char) -> (r: (usize, usize))
    requires
        from <= to <= v.len(),
    ensures
        from <= r.0 <= r.1 <= to,
        v@.subrange(r.0 as int, r.1 as int) == strip_trail_char(
            strip_lead_char(v@.subrange(from as int, to as int), c),
            c,
        ),
{
    let mut a = from;
    while a < to && v[a] == c
        invariant
            from <= a <= to <= v.len(),
            strip_lead_char(v@.subrange(a as int, to as int), c) == strip_lead_char(
                v@.subrange(from as int, to as int),
                c,
            ),
        decreases to - a,
    {
        assert(v@.subrange(a as int, to as int).drop_first() =~= v@.subrange(a + 1, to as int));
        a = a + 1;
    }
    let mut b = to;
    assert(v@.subrange(a as int, to as int).len() == 0 || v@.subrange(a as int, to as int)[0] != c);
    while b > a && v[b - 1] == c
        invariant
            a <= b <= to,
            to <= v.len(),
            strip_trail_char(v@.subrange(a as int, b as int), c) == strip_trail_char(
                v@.subrange(a as int, to as int),
                c,
            ),
        decreases b,
    {
        assert(v@.subrange(a as int, b as int).drop_last() =~= v@.subrange(a as int, b - 1));
        b = b - 1;
    }
    (a, b)
}

/// The tags an inline list such as `[a, "b"]` names.
pub fn parse_inline_tag_list(value: &str) -> (r: Vec<String>)
    ensures
        views(r@) == tag_list(value@),
{
    let v = chars_of(value);
    let (ta, tb) = trim_bounds(&v);
    let t = slice_chars(&v, ta, tb);
    let mut a: usize = 0;
    assert(t@.subrange(0, t.len() as int) =~= t@);
    while a < t.len() && t[a] == '['
        invariant
            a <= t.len(),
            strip_lead_char(t@.subrange(a as int, t.len() as int), '[') == strip_lead_char(t@, '['),
        decreases t.len() - a,
    {
        assert(t@.subrange(a as int, t.len() as int).drop_first() =~= t@.subrange(a + 1, t.len() as int));
        a = a + 1;
    }
    proof {
        assert(t@.subrange(0, t.len() as int) =~= t@);
    }
    let mut b: usize = t.len();
    while b > a && t[b - 1] == ']'
        invariant
            a <= b <= t.len(),
            strip_trail_char(t@.subrange(a as int, b as int), ']') == strip_trail_char(
                t@.subrange(a as int, t.len() as int),
                ']',
            ),
        decreases b,
    {
        assert(t@.subrange(a as int, b as int).drop_last() =~= t@.subrange(a as int, b - 1));
        b = b - 1;
    }
    let inner = slice_chars(&t, a, b);
    let ghost iv = inner@;
    let mut out: Vec<String> = Vec::new();
    let mut i: usize = 0;
    let mut finished = false;
    let ghost mut done: Seq<Seq<char>> = Seq::empty();
    while !finished
        invariant
            i <= inner.len(),
            iv == inner@,
            !finished ==> done + pieces_from(iv, i as int) == pieces_from(iv, 0),
            finished ==> done == pieces_from(iv, 0),
            views(out@) == keep_tags(done),
        decreases inner.len() - i + (if finished { 0int } else { 1int }),
    {
        let mut j = i;
        while j < inner.len() && inner[j] != ','
            invariant
                iv == inner@,
                i <= j <= inner.len(),
                next_char(iv, j as int, ',') == next_char(iv, i as int, ','),
            decreases inner.len() - j,
        {
            j = j + 1;
        }
        let (pa, pb) = trim_bounds(&slice_chars(&inner, i, j));
        let piece = slice_chars(&inner, i, j);
        let (x, y) = strip_char_bounds(&piece, pa, pb, '"');
        proof {
            assert(piece@.subrange(pa as int, pb as int) == trim(iv.subrange(i as int, j as int)));
        }
        let ghost before = views(out@);
        if y > x {
            out.push(string_from_chars(&slice_chars(&piece, x, y)));
        }
        proof {
            let p = iv.subrange(i as int, j as int);
            let nd = done.push(p);
            assert(nd.drop_last() =~= done);
            assert(views(out@) =~= keep_tags(nd));
            if j >= inner.len() {
                assert(pieces_from(iv, i as int) =~= seq![p]);
                assert(nd =~= pieces_from(iv, 0));
            } else {
                assert(pieces_from(iv, i as int) =~= seq![p] + pieces_from(iv, j + 1));
                assert(nd + pieces_from(iv, j + 1) =~= pieces_from(iv, 0));
            }
            done = nd;
        }
        if j >= inner.len() {
            finished = true;
        } else {
            i = j + 1;
        }
    }
    out
}

/// What front matter has been read so far: `key: value` fields with their
/// raw (trimmed) values, the tags, and the lines kept as they were.
pub struct FieldsModel {
    pub entries: Seq<(Seq<char>, Seq<char>)>,
    pub tags: Seq<Seq<char>>,
    pub preserved: Seq<Seq<char>>,
}

/// The fields read from front matter.
#[derive(Debug, Clone)]
pub struct FrontmatterFields {
    pub entries: Vec<(String, String)>,
    pub tags: Vec<String>,
    pub preserved_lines: Vec<String>,
}

/// How one front-matter line is read: blank lines are skipped; indented
/// lines and lines without a colon are kept as they were (trailing space
/// removed); `tags` replaces the tag list; a key with an empty value is kept
/// as it was; any other `key: value` becomes a field.
pub open spec fn field_step(st: FieldsModel, line: Seq<char>) -> FieldsModel {
    let te = trim_end(line);
    let t = trim(line);
    if t.len() == 0 {
        st
    } else if line.len() > 0 && is_space(line[0]) {
        FieldsModel { preserved: st.preserved.push(te), ..st }
    } else {
        match crate::client::first_colon(t) {
            None => FieldsModel { preserved: st.preserved.push(te), ..st },
            Some(c) => {
                let key = trim(t.subrange(0, c));
                let raw = trim(t.subrange(c + 1, t.len() as int));
                if key == "tags"@ {
                    FieldsModel { tags: tag_list(raw), ..st }
                } else if raw.len() == 0 {
                    FieldsModel { preserved: st.preserved.push(te), ..st }
                } else {
                    FieldsModel { entries: st.entries.push((key, raw)), ..st }
                }
            },
        }
    }
}

/// The reading of the first `n` lines.
pub open spec fn fields_prefix(ls: Seq<Seq<char>>, n: nat) -> FieldsModel
    decreases n,
{
    if n == 0 || n > ls.len() {
        FieldsModel { entries: Seq::empty(), tags: Seq::empty(), preserved: Seq::empty() }
    } else {
        field_step(fields_prefix(ls, (n - 1) as nat), ls[n - 1])
    }
}

/// The reading of a whole front-matter block.
pub open spec fn fields_of(frontmatter: Seq<char>) -> FieldsModel {
    fields_prefix(lines_of(frontmatter), lines_of(frontmatter).len())
}

/// Reads a front-matter block line by line.
pub fn parse_frontmatter_fields(frontmatter: &str) -> (r: FrontmatterFields)
    ensures
        pairs_view(r.entries@) == fields_of(frontmatter@).entries,
        views(r.tags@) == fields_of(frontmatter@).tags,
        views(r.preserved_lines@) == fields_of(frontmatter@).preserved,
{
    let v = chars_of(frontmatter);
    let ls = split_lines(&v);
    let ghost lv = ls@.map_values(|l: Vec<char>| l@);
    let mut entries: Vec<(String, String)> = Vec::new();
    let mut tags: Vec<String> = Vec::new();
    let mut preserved: Vec<String> = Vec::new();
    let key_tags = chars_of("tags");
    let mut i: usize = 0;
    while i < ls.len()
        invariant
            i <= ls.len(),
            lv == ls@.map_values(|l: Vec<char>| l@),
            lv == lines_of(frontmatter@),
            key_tags@ == "tags"@,
            pairs_view(entries@) == fields_prefix(lv, i as nat).entries,
            views(tags@) == fields_prefix(lv, i as nat).tags,
            views(preserved@) == fields_prefix(lv, i as nat).preserved,
        decreases ls.len() - i,
    {
        let line = &ls[i];
        assert(line@ == lv[i as int]);
        let ghost st = fields_prefix(lv, i as nat);
        assert(fields_prefix(lv, (i + 1) as nat) == field_step(st, line@));
        let n = line.len();
        let (a, b) = trim_bounds(line);
        let e = end_before_spaces(line);
        proof {
            lemma_trail_spaces_bound(line@);
        }
        let ghost te = trim_end(line@);
        if a < b {
            let te_vec = slice_chars(line, 0, e);
            if crate::text::char_is_space(line[0]) {
                let ghost gb = views(preserved@);
                preserved.push(string_from_chars(&te_vec));
                assert(views(preserved@) =~= gb.push(te));
            } else {
                let t = slice_chars(line, a, b);
                let mut c: usize = 0;
                while c < t.len() && t[c] != ':'
                    invariant
                        c <= t.len(),
                        forall|j: int| 0 <= j < c ==> t@[j] != ':',
                    decreases t.len() - c,
                {
                    c = c + 1;
                }
                if c == t.len() {
                    assert(!exists|k: int| 0 <= k < t@.len() && t@[k] == ':');
                    let ghost gb = views(preserved@);
                    preserved.push(string_from_chars(&te_vec));
                    assert(views(preserved@) =~= gb.push(te));
                } else {
                    proof {
                        let k = choose|k: int|
                            0 <= k < t@.len() && t@[k] == ':' && forall|j: int| 0 <= j < k ==> t@[j] != ':';
                        assert(k == c);
                    }
                    let kv = slice_chars(&t, 0, c);
                    let (ka, kb) = trim_bounds(&kv);
                    let key = slice_chars(&kv, ka, kb);
                    let rv = slice_chars(&t, c + 1, t.len());
                    let (ra, rb) = trim_bounds(&rv);
                    let raw = slice_chars(&rv, ra, rb);
                    if crate::text::seq_eq(&key, &key_tags) {
                        let raw_s = string_from_chars(&raw);
                        tags = parse_inline_tag_list(raw_s.as_str());
                    } else if raw.len() == 0 {
                        let ghost gb = views(preserved@);
                        preserved.push(string_from_chars(&te_vec));
                        assert(views(preserved@) =~= gb.push(te));
                    } else {
                        let ghost gb = pairs_view(entries@);
                        entries.push((string_from_chars(&key), string_from_chars(&raw)));
                        assert(pairs_view(entries@) =~= gb.push((key@, raw@)));
                    }
                }
            }
        }
        i = i + 1;
    }
    FrontmatterFields { entries, tags, preserved_lines: preserved }
}

/// The value of the last field with key `k`, if any (later fields override
/// earlier ones, as in a map).
pub open spec fn field_value(fields: Seq<(Seq<char>, Option<Seq<char>>)>, k: Seq<char>) -> Option<Option<Seq<char>>>
    decreases fields.len(),
{
    if fields.len() == 0 {
        None
    } else if fields.last().0 == k {
        Some(fields.last().1)
    } else {
        field_value(fields.drop_last(), k)
    }
}

/// The value of a looked-up field.
pub open spec fn found_view(v: Option<Option<String>>) -> Option<Option<Seq<char>>> {
    match v {
        Some(Some(s)) => Some(Some(s@)),
        Some(None) => Some(None),
        None => None,
    }
}

/// The fields other than title and description that have a text value.
pub open spec fn extra_of(fields: Seq<(Seq<char>, Option<Seq<char>>)>) -> Seq<(Seq<char>, Seq<char>)>
    decreases fields.len(),
{
    if fields.len() == 0 {
        Seq::empty()
    } else {
        let (k, v) = fields.last();
        extra_of(fields.drop_last()) + if k != "title"@ && k != "description"@ && v is Some {
            seq![(k, v->0)]
        } else {
            Seq::empty()
        }
    }
}

/// The views of a list of fields whose values may be missing.
pub open spec fn opt_fields_view(v: Seq<(String, Option<String>)>) -> Seq<(Seq<char>, Option<Seq<char>>)> {
    v.map_values(|p: (String, Option<String>)| (p.0@, match p.1 {
        Some(x) => Some(x@),
        None => None,
    }))
}

/// The metadata form for a note's fields: `fields` are the front-matter
/// (or daemon-sent) fields by key, each with its text when it is a scalar;
/// the title falls back to the note's title, the tags to the note's tags,
/// and the other text fields are listed by key.
pub fn metadata_form_from_fields(
    note_title: Option<&str>,
    note_tags: Option<&Vec<String>>,
    fields: &Vec<(String, Option<String>)>,
    tags: Vec<String>,
    preserved_lines: Vec<String>,
) -> (r: MetadataForm)
    ensures
        r.title@ == match field_value(opt_fields_view(fields@), "title"@) {
            Some(Some(t)) => t,
            _ => match note_title {
                Some(t) => t@,
                None => Seq::empty(),
            },
        },
        r.description@ == match field_value(opt_fields_view(fields@), "description"@) {
            Some(Some(d)) => d,
            _ => Seq::empty(),
        },
        views(r.tags@) == if tags@.len() > 0 {
            views(tags@)
        } else {
            match note_tags {
                Some(t) => views(t@),
                None => views(tags@),
            }
        },
        pairs_view(r.extra_fields@) == sort_by_key(extra_of(opt_fields_view(fields@))),
        r.preserved_lines == preserved_lines,
{
    let ghost fv = opt_fields_view(fields@);
    let mut title: Option<Option<String>> = None;
    let mut description: Option<Option<String>> = None;
    let mut extra: Vec<(String, String)> = Vec::new();
    let key_title = chars_of("title");
    let key_description = chars_of("description");
    let mut i: usize = 0;
    while i < fields.len()
        invariant
            i <= fields.len(),
            fv == opt_fields_view(fields@),
            key_title@ == "title"@,
            key_description@ == "description"@,
            found_view(title) == field_value(fv.subrange(0, i as int), "title"@),
            found_view(description) == field_value(fv.subrange(0, i as int), "description"@),
            pairs_view(extra@) == extra_of(fv.subrange(0, i as int)),
        decreases fields.len() - i,
    {
        let key = chars_of(fields[i].0.as_str());
        let ghost pre = fv.subrange(0, i + 1);
        assert(pre.drop_last() =~= fv.subrange(0, i as int));
        assert(pre.last() == fv[i as int]);
        proof {
            reveal_strlit("title");
            reveal_strlit("description");
            assert("title"@.len() != "description"@.len());
        }
        let is_title = crate::text::seq_eq(&key, &key_title);
        let is_description = crate::text::seq_eq(&key, &key_description);
        if is_title {
            title = Some(fields[i].1.clone());
        } else if is_description {
            description = Some(fields[i].1.clone());
        } else {
            match &fields[i].1 {
                Some(v) => {
                    let ghost gb = pairs_view(extra@);
                    extra.push((fields[i].0.clone(), v.clone()));
                    assert(pairs_view(extra@) =~= gb.push((fv[i as int].0, fv[i as int].1->0)));
                },
                None => {},
            }
        }
        assert(pairs_view(extra@) =~= extra_of(pre));
        i = i + 1;
    }
    assert(fv.subrange(0, fields.len() as int) =~= fv);
    let title_text = match title {
        Some(Some(t)) => t,
        _ => match note_title {
            Some(t) => String::from_str(t),
            None => String::new(),
        },
    };
    let description_text = match description {
        Some(Some(d)) => d,
        _ => String::new(),
    };
    let tags = if tags.len() > 0 {
        tags
    } else {
        match note_tags {
            Some(t) => t.clone(),
            None => tags,
        }
    };
    let sorted = sort_pairs_by_key(&extra);
    MetadataForm {
        title: title_text,
        description: description_text,
        tags,
        extra_fields: sorted,
        preserved_lines,
    }
}

/// The title a note is shown with: the front-matter title when it is not
/// empty, else the first level-one heading, else the note's own title when
/// it has one, else `Untitled`.
pub fn preferred_note_title(note_title: Option<&str>, content: &str, frontmatter_title: Option<&str>) -> (r: String)
    ensures
        r@ == if frontmatter_title matches Some(t) && t@.len() > 0 {
            frontmatter_title->0@
        } else if title_from_lines(lines_of(content@), 0) != "Untitled"@ {
            title_from_lines(lines_of(content@), 0)
        } else if note_title matches Some(t) && t@.len() > 0 {
            note_title->0@
        } else {
            title_from_lines(lines_of(content@), 0)
        },
{
    if let Some(t) = frontmatter_title {
        if chars_of(t).len() > 0 {
            return String::from_str(t);
        }
    }
    let derived = extract_title_from_markdown(content);
    if !crate::text::str_eq(derived.as_str(), "Untitled") {
        return derived;
    }
    if let Some(t) = note_title {
        if chars_of(t).len() > 0 {
            return String::from_str(t);
        }
    }
    derived
}

/// Whether key `k` comes again after index `i`.
pub open spec fn key_later(fv: Seq<(Seq<char>, Option<Seq<char>>)>, k: Seq<char>, i: int) -> bool {
    exists|j: int| i < j < fv.len() && #[trigger] fv[j].0 == k
}

/// The fields from index `i` on that are the last of their key, in order.
pub open spec fn latest_from(fv: Seq<(Seq<char>, Option<Seq<char>>)>, i: int) -> Seq<(Seq<char>, Option<Seq<char>>)>
    decreases fv.len() - i,
{
    if i < 0 || i >= fv.len() {
        Seq::empty()
    } else {
        (if key_later(fv, fv[i].0, i) {
            Seq::empty()
        } else {
            seq![fv[i]]
        }) + latest_from(fv, i + 1)
    }
}

/// The last field of a key holds the key's value.
proof fn lemma_last_field_is_value(fv: Seq<(Seq<char>, Option<Seq<char>>)>, i: int)
    requires
        0 <= i < fv.len(),
        !key_later(fv, fv[i].0, i),
    ensures
        field_value(fv, fv[i].0) == Some(fv[i].1),
    decreases fv.len(),
{
    if i < fv.len() - 1 {
        assert(fv.last().0 != fv[i].0) by {
            if fv.last().0 == fv[i].0 {
                assert(fv[fv.len() - 1].0 == fv[i].0);
            }
        }
        let d = fv.drop_last();
        assert(!key_later(d, d[i].0, i)) by {
            if key_later(d, d[i].0, i) {
                let j = choose|j: int| i < j < d.len() && #[trigger] d[j].0 == d[i].0;
                assert(fv[j].0 == fv[i].0);
            }
        }
        lemma_last_field_is_value(d, i);
    }
}

/// Every field kept from index `i` on is a field at or after `i` that is the
/// last of its key.
proof fn lemma_latest_from_members(fv: Seq<(Seq<char>, Option<Seq<char>>)>, i: int)
    requires
        0 <= i,
    ensures
        forall|k: int|
            0 <= k < latest_from(fv, i).len() ==> exists|m: int|
                i <= m < fv.len() && #[trigger] latest_from(fv, i)[k] == fv[m] && !key_later(fv, fv[m].0, m),
    decreases fv.len() - i,
{
    if i < fv.len() {
        lemma_latest_from_members(fv, i + 1);
        let head: Seq<(Seq<char>, Option<Seq<char>>)> = if key_later(fv, fv[i].0, i) {
            Seq::empty()
        } else {
            seq![fv[i]]
        };
        let all = latest_from(fv, i);
        assert(all == head + latest_from(fv, i + 1));
        assert forall|k: int| 0 <= k < all.len() implies exists|m: int|
            i <= m < fv.len() && #[trigger] all[k] == fv[m] && !key_later(fv, fv[m].0, m) by {
            if k < head.len() {
                assert(all[k] == fv[i]);
            } else {
                assert(all[k] == latest_from(fv, i + 1)[k - head.len()]);
            }
        }
    }
}

/// Keeping each key's last field loses no value: every field kept holds the
/// value its key has among all the fields, as a map built from them in
/// order would hold it.
pub proof fn law_latest_fields_hold_values(fv: Seq<(Seq<char>, Option<Seq<char>>)>)
    ensures
        forall|k: int|
            0 <= k < latest_from(fv, 0).len() ==> field_value(fv, (#[trigger] latest_from(fv, 0)[k]).0)
                == Some(latest_from(fv, 0)[k].1),
{
    lemma_latest_from_members(fv, 0);
    assert forall|k: int| 0 <= k < latest_from(fv, 0).len() implies field_value(
        fv,
        (#[trigger] latest_from(fv, 0)[k]).0,
    ) == Some(latest_from(fv, 0)[k].1) by {
        let m = choose|m: int|
            0 <= m < fv.len() && #[trigger] latest_from(fv, 0)[k] == fv[m] && !key_later(fv, fv[m].0, m);
        lemma_last_field_is_value(fv, m);
    }
}

/// Copies of a key and value.
fn copy_field(p: &(String, Option<String>)) -> (r: (String, Option<String>))
    ensures
        opt_fields_view(seq![r]) == opt_fields_view(seq![*p]),
{
    let v = match &p.1 {
        Some(x) => Some(x.clone()),
        None => None,
    };
    (p.0.clone(), v)
}

/// The fields with each key once, holding the key's last value, in the
/// order of those last occurrences (as a map built from them in order
/// would keep them).
pub fn latest_fields(fields: &Vec<(String, Option<String>)>) -> (r: Vec<(String, Option<String>)>)
    ensures
        opt_fields_view(r@) == latest_from(opt_fields_view(fields@), 0),
{
    let ghost fv = opt_fields_view(fields@);
    let mut out: Vec<(String, Option<String>)> = Vec::new();
    let mut i: usize = 0;
    while i < fields.len()
        invariant
            i <= fields.len(),
            fv == opt_fields_view(fields@),
            opt_fields_view(out@) + latest_from(fv, i as int) == latest_from(fv, 0),
        decreases fields.len() - i,
    {
        let mut later = false;
        let mut j: usize = i + 1;
        while j < fields.len()
            invariant
                i < fields.len(),
                i + 1 <= j <= fields.len(),
                fv == opt_fields_view(fields@),
                later == exists|k: int| i < k < j && #[trigger] fv[k].0 == fv[i as int].0,
            decreases fields.len() - j,
        {
            if crate::text::str_eq(fields[j].0.as_str(), fields[i].0.as_str()) {
                later = true;
            }
            proof {
                assert(fv[j as int].0 == fields@[j as int].0@);
                assert(fv[i as int].0 == fields@[i as int].0@);
            }
            j = j + 1;
        }
        assert(later == key_later(fv, fv[i as int].0, i as int));
        let ghost before = opt_fields_view(out@);
        if !later {
            let c = copy_field(&fields[i]);
            out.push(c);
            assert(opt_fields_view(out@) =~= before + seq![fv[i as int]]) by {
                assert(opt_fields_view(seq![c]) == opt_fields_view(seq![fields@[i as int]]));
                assert(opt_fields_view(seq![c])[0] == opt_fields_view(out@)[out@.len() - 1]);
            }
        }
        assert(latest_from(fv, i as int) == (if key_later(fv, fv[i as int].0, i as int) {
            Seq::empty()
        } else {
            seq![fv[i as int]]
        }) + latest_from(fv, i + 1));
        i = i + 1;
        assert(opt_fields_view(out@) + latest_from(fv, i as int) =~= latest_from(fv, 0));
    }
    out
}

/// The value of the last field with key `key`, if any.
pub fn field_lookup(fields: &Vec<(String, Option<String>)>, key: &str) -> (r: Option<Option<String>>)
    ensures
        found_view(r) == field_value(opt_fields_view(fields@), key@),
{
    let ghost fv = opt_fields_view(fields@);
    let mut found: Option<Option<String>> = None;
    let mut i: usize = 0;
    while i < fields.len()
        invariant
            i <= fields.len(),
            fv == opt_fields_view(fields@),
            found_view(found) == field_value(fv.subrange(0, i as int), key@),
        decreases fields.len() - i,
    {
        let ghost pre = fv.subrange(0, i + 1);
        assert(pre.drop_last() =~= fv.subrange(0, i as int));
        if crate::text::str_eq(fields[i].0.as_str(), key) {
            found = Some(
                match &fields[i].1 {
                    Some(x) => Some(x.clone()),
                    None => None,
                },
            );
        }
        i = i + 1;
    }
    assert(fv.subrange(0, fields.len() as int) =~= fv);
    found
}

// ===== Reading back what was written =====

/// Trimming a text whose ends are not white space leaves it as it is.
proof fn lemma_trim_unchanged(s: Seq<char>)
    requires
        s.len() > 0,
        !is_space(s[0]),
        !is_space(s.last()),
    ensures
        trim(s) == s,
{
    assert(lead_spaces(s) == 0);
    assert(trim_start(s) =~= s);
    assert(trail_spaces(s) == 0);
    assert(trim_end(s) =~= s);
}

/// The ends of a non-empty trimmed text are not white space.
proof fn lemma_trim_ends(x: Seq<char>)
    requires
        trim(x).len() > 0,
    ensures
        !is_space(trim(x)[0]),
        !is_space(trim(x).last()),
{
    lemma_lead_spaces_bound(x);
    let a = trim_start(x);
    lemma_trail_spaces_bound(a);
    assert(trim(x)[0] == a[0]);
    assert(a[0] == x[lead_spaces(x) as int]);
    assert(trim(x).last() == a[a.len() - trail_spaces(a) - 1]);
}

/// Joined lines start with the first line, then a newline when more follow.
proof fn lemma_join_head(ls: Seq<Seq<char>>)
    requires
        ls.len() > 0,
    ensures
        join_lines(ls).len() >= ls[0].len(),
        join_lines(ls).subrange(0, ls[0].len() as int) == ls[0],
        ls.len() > 1 ==> join_lines(ls).len() > ls[0].len() && join_lines(ls)[ls[0].len() as int] == '\n',
    decreases ls.len(),
{
    if ls.len() == 1 {
        assert(join_lines(ls).subrange(0, ls[0].len() as int) =~= ls[0]);
    } else {
        let d = ls.drop_last();
        lemma_join_head(d);
        let jd = join_lines(d);
        let j = join_lines(ls);
        assert(j == jd + seq!['\n'] + ls.last());
        assert(d[0] == ls[0]);
        assert(j.subrange(0, ls[0].len() as int) =~= jd.subrange(0, ls[0].len() as int));
        if d.len() == 1 {
            assert(jd == ls[0]);
            assert(j[ls[0].len() as int] == '\n');
        } else {
            assert(j[ls[0].len() as int] == jd[ls[0].len() as int]);
        }
    }
}

/// The first line read from joined lines is the first line, when it is
/// not empty, holds no newline and does not end in a carriage return.
proof fn lemma_first_line_back(ls: Seq<Seq<char>>)
    requires
        ls.len() > 0,
        ls[0].len() > 0,
        !ls[0].contains('\n'),
        ls[0].last() != '\r',
    ensures
        lines_of(join_lines(ls)).len() > 0,
        lines_of(join_lines(ls))[0] == ls[0],
{
    lemma_join_head(ls);
    let j = join_lines(ls);
    let l0 = ls[0];
    crate::ui::editor_commands::lemma_next_newline_bound(j, 0);
    let nl = crate::ui::editor_commands::next_newline(j, 0);
    assert forall|k: int| 0 <= k < l0.len() implies j[k] != '\n' by {
        assert(j[k] == j.subrange(0, l0.len() as int)[k]);
        if j[k] == '\n' {
            assert(l0[k] == '\n');
            assert(l0.contains('\n'));
        }
    }
    if nl < l0.len() {
        assert(j[nl] == '\n');
    }
    if ls.len() > 1 {
        assert(nl == l0.len());
        assert(j.subrange(0, nl) =~= l0);
    } else {
        assert(j == l0);
        assert(nl == j.len());
        assert(j.subrange(0, j.len() as int) =~= l0);
    }
}

/// Reading more lines only adds fields after those already read.
proof fn lemma_entries_grow(ls: Seq<Seq<char>>, n: nat)
    requires
        1 <= n <= ls.len(),
    ensures
        fields_prefix(ls, n).entries.len() >= fields_prefix(ls, 1).entries.len(),
        forall|k: int|
            0 <= k < fields_prefix(ls, 1).entries.len() ==> #[trigger] fields_prefix(ls, n).entries[k]
                == fields_prefix(ls, 1).entries[k],
    decreases n,
{
    if n > 1 {
        lemma_entries_grow(ls, (n - 1) as nat);
        let st = fields_prefix(ls, (n - 1) as nat);
        let nx = field_step(st, ls[n - 1]);
        assert(fields_prefix(ls, n) == nx);
        assert(nx.entries == st.entries || nx.entries == st.entries.push(nx.entries.last()));
        assert forall|k: int| 0 <= k < fields_prefix(ls, 1).entries.len() implies #[trigger] fields_prefix(ls, n).entries[k]
            == fields_prefix(ls, 1).entries[k] by {
            assert(nx.entries[k] == st.entries[k]);
        }
    }
}

/// A form's title survives being written and read back: the front matter
/// written for a form with a non-blank title of one line starts with the
/// title's line, and reading that front matter gives the trimmed title as
/// its first field, under the key `title`.
pub proof fn law_title_reads_back(form: MetadataForm)
    requires
        trim(form.title@).len() > 0,
        !form.title@.contains('\n'),
    ensures
        fields_of(join_lines(lines_of_form(form))).entries.len() > 0,
        fields_of(join_lines(lines_of_form(form))).entries[0] == ("title"@, trim(form.title@)),
{
    reveal_strlit("title: ");
    reveal_strlit("title");
    reveal_strlit("tags");
    let t = trim(form.title@);
    lemma_trim_ends(form.title@);
    let line = "title: "@ + t;
    let ls = lines_of_form(form);
    assert(ls[0] == line);
    lemma_lead_spaces_bound(form.title@);
    assert(!line.contains('\n')) by {
        if line.contains('\n') {
            let k = choose|k: int| 0 <= k < line.len() && line[k] == '\n';
            if k >= 7 {
                assert(t[k - 7] == '\n');
                let a = trim_start(form.title@);
                let ld = lead_spaces(form.title@) as int;
                lemma_trail_spaces_bound(a);
                assert(t == a.subrange(0, a.len() - trail_spaces(a)));
                assert(t[k - 7] == a[k - 7]);
                assert(a[k - 7] == form.title@[ld + k - 7]);
                assert(0 <= ld + k - 7 < form.title@.len());
                assert(form.title@[ld + k - 7] == '\n');
                assert(form.title@.contains('\n'));
            }
        }
    }
    assert(line.last() == t.last());
    assert(line.last() != '\r');
    lemma_first_line_back(ls);
    let rd = lines_of(join_lines(ls));
    assert(rd[0] == line);
    // Reading the title line.
    assert(!is_space(line[0]));
    lemma_trim_unchanged(line);
    assert(trim(line) == line);
    assert(line[5] == ':');
    let c = crate::client::first_colon(line);
    assert(c == Some(5int)) by {
        let w = choose|i: int| 0 <= i < line.len() && line[i] == ':' && forall|j: int| 0 <= j < i ==> line[j] != ':';
        assert(line[0] != ':' && line[1] != ':' && line[2] != ':' && line[3] != ':' && line[4] != ':');
        if w > 5 {
        }
        assert(w == 5);
    }
    let key = line.subrange(0, 5);
    assert(key =~= "title"@);
    lemma_trim_unchanged(key);
    let raw = line.subrange(6, line.len() as int);
    assert(raw =~= seq![' '] + t);
    assert(lead_spaces(raw) == 1) by {
        assert(raw.drop_first() =~= t);
        assert(lead_spaces(t) == 0);
    }
    assert(trim_start(raw) =~= t);
    lemma_trim_unchanged(t);
    assert(trim(raw) == t);
    assert(key != "tags"@) by {
        assert(key.len() != "tags"@.len());
    }
    let empty = FieldsModel { entries: Seq::empty(), tags: Seq::empty(), preserved: Seq::empty() };
    assert(fields_prefix(rd, 0) == empty);
    assert(fields_prefix(rd, 1) == field_step(fields_prefix(rd, 0), rd[1 - 1]));
    assert(fields_prefix(rd, 1) == field_step(empty, rd[0]));
    assert(field_step(empty, line).entries == seq![("title"@, t)]);
    lemma_entries_grow(rd, rd.len());
    assert(fields_of(join_lines(ls)) == fields_prefix(rd, rd.len()));
}

// ===== Preview markup is escaped text =====

/// Whether one of the entities `&amp;`, `&lt;`, `&gt;`, `&quot;` starts at
/// `k`.
pub open spec fn entity_at(e: Seq<char>, k: int) -> bool {
    occurs_at(e, "&amp;"@, k) || occurs_at(e, "&lt;"@, k) || occurs_at(e, "&gt;"@, k) || occurs_at(
        e,
        "&quot;"@,
        k,
    )
}

/// Whether text is safe inside Pango markup: no `<`, `>` or `"`, and every
/// `&` starts an entity.
pub open spec fn markup_safe(e: Seq<char>) -> bool {
    forall|k: int|
        0 <= k < e.len() ==> #[trigger] e[k] != '<' && e[k] != '>' && e[k] != '"' && (e[k] == '&' ==> entity_at(
            e,
            k,
        ))
}

/// The text markup stands for, its entities read left to right.
pub open spec fn decode_markup(e: Seq<char>) -> Seq<char>
    decreases e.len(),
{
    if e.len() == 0 {
        Seq::empty()
    } else if occurs_at(e, "&amp;"@, 0) {
        proof {
            reveal_strlit("&amp;");
        }
        seq!['&'] + decode_markup(e.subrange(5, e.len() as int))
    } else if occurs_at(e, "&lt;"@, 0) {
        proof {
            reveal_strlit("&lt;");
        }
        seq!['<'] + decode_markup(e.subrange(4, e.len() as int))
    } else if occurs_at(e, "&gt;"@, 0) {
        proof {
            reveal_strlit("&gt;");
        }
        seq!['>'] + decode_markup(e.subrange(4, e.len() as int))
    } else if occurs_at(e, "&quot;"@, 0) {
        proof {
            reveal_strlit("&quot;");
        }
        seq!['"'] + decode_markup(e.subrange(6, e.len() as int))
    } else {
        seq![e[0]] + decode_markup(e.drop_first())
    }
}

/// Escaping a joined text escapes each part.
proof fn lemma_escape_concat(a: Seq<char>, b: Seq<char>)
    ensures
        escape_seq(a + b) == escape_seq(a) + escape_seq(b),
    decreases b.len(),
{
    if b.len() == 0 {
        assert(a + b =~= a);
        assert(escape_seq(a) + escape_seq(b) =~= escape_seq(a));
    } else {
        assert((a + b).drop_last() =~= a + b.drop_last());
        assert((a + b).last() == b.last());
        lemma_escape_concat(a, b.drop_last());
        assert(escape_seq(a + b) =~= escape_seq(a) + escape_seq(b));
    }
}

/// Escaped text is safe markup.
proof fn lemma_escape_safe(s: Seq<char>)
    ensures
        markup_safe(escape_seq(s)),
    decreases s.len(),
{
    reveal_strlit("&amp;");
    reveal_strlit("&lt;");
    reveal_strlit("&gt;");
    reveal_strlit("&quot;");
    if s.len() > 0 {
        lemma_escape_safe(s.drop_last());
        let x = escape_seq(s.drop_last());
        let y = escape_char(s.last());
        let e = escape_seq(s);
        assert(e == x + y);
        assert forall|k: int| 0 <= k < e.len() implies #[trigger] e[k] != '<' && e[k] != '>' && e[k] != '"' && (e[k]
            == '&' ==> entity_at(e, k)) by {
            if k < x.len() {
                assert(e[k] == x[k]);
                assert(x[k] != '<' && x[k] != '>' && x[k] != '"' && (x[k] == '&' ==> entity_at(x, k)));
                if x[k] == '&' {
                    if occurs_at(x, "&amp;"@, k) {
                        assert(e.subrange(k, k + 5) =~= x.subrange(k, k + 5));
                    } else if occurs_at(x, "&lt;"@, k) {
                        assert(e.subrange(k, k + 4) =~= x.subrange(k, k + 4));
                    } else if occurs_at(x, "&gt;"@, k) {
                        assert(e.subrange(k, k + 4) =~= x.subrange(k, k + 4));
                    } else {
                        assert(e.subrange(k, k + 6) =~= x.subrange(k, k + 6));
                    }
                }
            } else {
                let m = k - x.len();
                assert(e[k] == y[m]);
                let c = s.last();
                if c == '&' {
                    if m == 0 {
                        assert(e.subrange(k, k + 5) =~= "&amp;"@);
                    }
                } else if c == '<' {
                    if m == 0 {
                        assert(e.subrange(k, k + 4) =~= "&lt;"@);
                    }
                } else if c == '>' {
                    if m == 0 {
                        assert(e.subrange(k, k + 4) =~= "&gt;"@);
                    }
                } else if c == '"' {
                    if m == 0 {
                        assert(e.subrange(k, k + 6) =~= "&quot;"@);
                    }
                }
            }
        }
    }
}

/// Decoding escaped text gives the text back.
proof fn lemma_escape_decodes(s: Seq<char>)
    ensures
        decode_markup(escape_seq(s)) == s,
    decreases s.len(),
{
    reveal_strlit("&amp;");
    reveal_strlit("&lt;");
    reveal_strlit("&gt;");
    reveal_strlit("&quot;");
    if s.len() > 0 {
        let c = s[0];
        let t = s.drop_first();
        assert(s =~= seq![c] + t);
        lemma_escape_concat(seq![c], t);
        assert(seq![c].drop_last() =~= Seq::<char>::empty());
        assert(seq![c].last() == c);
        assert(escape_seq(Seq::<char>::empty()) == Seq::<char>::empty());
        assert(escape_seq(seq![c]) == escape_seq(seq![c].drop_last()) + escape_char(seq![c].last()));
        assert(escape_seq(seq![c]) =~= escape_char(c));
        let y = escape_char(c);
        let e = escape_seq(s);
        assert(e == y + escape_seq(t));
        lemma_escape_decodes(t);
        assert(e.subrange(y.len() as int, e.len() as int) =~= escape_seq(t));
        if c == '&' {
            assert(occurs_at(e, "&amp;"@, 0)) by {
                assert(e.subrange(0, 5) =~= "&amp;"@);
            }
        } else if c == '<' {
            assert(!occurs_at(e, "&amp;"@, 0)) by {
                assert(e[1] == 'l');
                if occurs_at(e, "&amp;"@, 0) {
                    assert(e.subrange(0, 5)[1] == e[1]);
                }
            }
            assert(occurs_at(e, "&lt;"@, 0)) by {
                assert(e.subrange(0, 4) =~= "&lt;"@);
            }
        } else if c == '>' {
            assert(!occurs_at(e, "&amp;"@, 0) && !occurs_at(e, "&lt;"@, 0)) by {
                assert(e[1] == 'g');
                if occurs_at(e, "&amp;"@, 0) {
                    assert(e.subrange(0, 5)[1] == e[1]);
                }
                if occurs_at(e, "&lt;"@, 0) {
                    assert(e.subrange(0, 4)[1] == e[1]);
                }
            }
            assert(occurs_at(e, "&gt;"@, 0)) by {
                assert(e.subrange(0, 4) =~= "&gt;"@);
            }
        } else if c == '"' {
            assert(!occurs_at(e, "&amp;"@, 0) && !occurs_at(e, "&lt;"@, 0) && !occurs_at(e, "&gt;"@, 0)) by {
                assert(e[1] == 'q');
                if occurs_at(e, "&amp;"@, 0) {
                    assert(e.subrange(0, 5)[1] == e[1]);
                }
                if occurs_at(e, "&lt;"@, 0) {
                    assert(e.subrange(0, 4)[1] == e[1]);
                }
                if occurs_at(e, "&gt;"@, 0) {
                    assert(e.subrange(0, 4)[1] == e[1]);
                }
            }
            assert(occurs_at(e, "&quot;"@, 0)) by {
                assert(e.subrange(0, 6) =~= "&quot;"@);
            }
        } else {
            assert(e[0] == c);
            assert(!occurs_at(e, "&amp;"@, 0) && !occurs_at(e, "&lt;"@, 0) && !occurs_at(e, "&gt;"@, 0)
                && !occurs_at(e, "&quot;"@, 0)) by {
                if occurs_at(e, "&amp;"@, 0) {
                    assert(e.subrange(0, 5)[0] == e[0]);
                }
                if occurs_at(e, "&lt;"@, 0) {
                    assert(e.subrange(0, 4)[0] == e[0]);
                }
                if occurs_at(e, "&gt;"@, 0) {
                    assert(e.subrange(0, 4)[0] == e[0]);
                }
                if occurs_at(e, "&quot;"@, 0) {
                    assert(e.subrange(0, 6)[0] == e[0]);
                }
            }
            assert(e.drop_first() =~= escape_seq(t));
        }
    }
}

/// The fixed markup a preview line is framed in, and the part of the
/// source line it shows: a `# ` heading in large bold, a `## ` heading in
/// bold, a `- ` or `* ` item after a bullet, any other line as it is.
pub open spec fn preview_frame(line: Seq<char>) -> (Seq<char>, Seq<char>, Seq<char>) {
    if starts_with(line, "# "@) {
        ("<span size='large' weight='bold'>"@, "</span>"@, line.subrange(2, line.len() as int))
    } else if starts_with(line, "## "@) {
        ("<span weight='bold'>"@, "</span>"@, line.subrange(3, line.len() as int))
    } else if starts_with(line, "- "@) || starts_with(line, "* "@) {
        ("  • "@, Seq::empty(), line.subrange(2, line.len() as int))
    } else {
        (Seq::empty(), Seq::empty(), line)
    }
}

/// Every preview line is valid markup built from escaped text: between its
/// fixed opening and closing markup stands text that is safe inside Pango
/// markup (no raw `<`, `>` or `"`, and `&` only as an entity) and that reads
/// back, entities decoded, as exactly the shown part of the source line.
pub proof fn law_preview_text_is_escaped(line: Seq<char>)
    ensures
        ({
            let (open, close, shown) = preview_frame(line);
            exists|e: Seq<char>|
                preview_line(line) == open + e + close && markup_safe(e) && #[trigger] decode_markup(e) == shown
        }),
{
    let (open, close, shown) = preview_frame(line);
    let e = escape_seq(shown);
    lemma_escape_safe(shown);
    lemma_escape_decodes(shown);
    assert(preview_line(line) =~= open + e + close);
}

} // verus!
