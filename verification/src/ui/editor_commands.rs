//! The editor's formatting commands as text edits.
//!
//! A command takes the text and the selection (character offsets, in either
//! order, clamped to the text) and gives the new text with the inserted or
//! rewritten part selected.
use vstd::prelude::*;
use vstd::string::*;
use crate::text::{
    decimal, is_space, lead_spaces, lemma_lead_spaces_bound, skip_spaces, string_from_chars,
    trim, trim_bounds, trim_start, u64_to_string,
};
use crate::client::slice_chars;

verus! {

/// A formatting command of the editor toolbar.
#[derive(Debug, Clone, Copy, PartialEq, Eq, Structural)]
pub enum MarkdownCommand {
    Heading1,
    BulletList,
    OrderedList,
    BlockQuote,
    CodeBlock,
    HorizontalRule,
    TaskToggle,
    Link,
    WikiLink,
}

/// A new text and the character range to select in it.
#[derive(Debug, PartialEq, Eq)]
pub struct TextEdit {
    pub text: String,
    pub selection: (usize, usize),
}

/// `o` clamped to a text of length `n`.
pub open spec fn clamp(o: int, n: int) -> int {
    if o < n {
        o
    } else {
        n
    }
}

/// The selection's ends clamped to the text and put in order.
pub open spec fn sel_bounds(n: int, sel: (usize, usize)) -> (int, int) {
    let a = clamp(sel.0 as int, n);
    let b = clamp(sel.1 as int, n);
    if a <= b {
        (a, b)
    } else {
        (b, a)
    }
}

/// The start of the line holding offset `s`.
pub open spec fn line_start(t: Seq<char>, s: int) -> int
    decreases s,
{
    if s <= 0 {
        0
    } else if t[s - 1] == '\n' {
        s
    } else {
        line_start(t, s - 1)
    }
}

/// The end (the newline, or the end of text) of the line holding offset `e`.
pub open spec fn line_end(t: Seq<char>, e: int) -> int
    decreases t.len() - e,
{
    if e >= t.len() {
        t.len() as int
    } else if t[e] == '\n' {
        e
    } else {
        line_end(t, e + 1)
    }
}

/// The selection grown to whole lines, the closing newline included.
pub open spec fn line_bounds(t: Seq<char>, sel: (usize, usize)) -> (int, int) {
    let (s, e) = sel_bounds(t.len() as int, sel);
    let le = line_end(t, e);
    (line_start(t, s), if le < t.len() {
        le + 1
    } else {
        le
    })
}

/// `x` without a final carriage return.
pub open spec fn strip_cr(x: Seq<char>) -> Seq<char> {
    if x.len() > 0 && x.last() == '\r' {
        x.drop_last()
    } else {
        x
    }
}

/// The position of the first newline in `s` at or after `i`.
pub open spec fn next_newline(s: Seq<char>, i: int) -> int
    decreases s.len() - i,
{
    if i >= s.len() {
        s.len() as int
    } else if s[i] == '\n' {
        i
    } else {
        next_newline(s, i + 1)
    }
}

pub proof fn lemma_next_newline_bound(s: Seq<char>, i: int)
    requires
        0 <= i,
    ensures
        i <= s.len() ==> i <= next_newline(s, i) <= s.len(),
        next_newline(s, i) < s.len() ==> s[next_newline(s, i)] == '\n',
        forall|k: int| i <= k < next_newline(s, i) ==> s[k] != '\n',
    decreases s.len() - i,
{
    if i < s.len() && s[i] != '\n' {
        lemma_next_newline_bound(s, i + 1);
    }
}

/// The lines of `s` from offset `i` on, as `str::lines` gives them: split at
/// each newline, a carriage return before it dropped, no empty line after a
/// final newline.
pub open spec fn lines_from(s: Seq<char>, i: int) -> Seq<Seq<char>>
    decreases s.len() - i,
{
    if i < 0 || i >= s.len() {
        Seq::empty()
    } else {
        let j = next_newline(s, i);
        proof {
            lemma_next_newline_bound(s, i);
        }
        if j >= s.len() {
            seq![s.subrange(i, s.len() as int)]
        } else {
            seq![strip_cr(s.subrange(i, j))] + lines_from(s, j + 1)
        }
    }
}

/// The lines of `s`.
pub open spec fn lines_of(s: Seq<char>) -> Seq<Seq<char>> {
    lines_from(s, 0)
}

/// Lines put back together with newlines between them.
pub open spec fn join_lines(ls: Seq<Seq<char>>) -> Seq<char>
    decreases ls.len(),
{
    if ls.len() == 0 {
        Seq::empty()
    } else if ls.len() == 1 {
        ls[0]
    } else {
        join_lines(ls.drop_last()) + seq!['\n'] + ls.last()
    }
}

/// Whether `s` starts with `p`.
pub open spec fn starts_with(s: Seq<char>, p: Seq<char>) -> bool {
    p.len() <= s.len() && s.subrange(0, p.len() as int) == p
}

/// `s` with every leading repetition of `p` removed.
pub open spec fn strip_all(s: Seq<char>, p: Seq<char>) -> Seq<char>
    decreases s.len(),
{
    if p.len() > 0 && starts_with(s, p) {
        strip_all(s.subrange(p.len() as int, s.len() as int), p)
    } else {
        s
    }
}

/// Characters an ordered-list marker is made of.
pub open spec fn is_marker_char(c: char) -> bool {
    ('0' <= c && c <= '9') || c == '.' || c == ' '
}

/// `s` without its leading marker characters.
pub open spec fn strip_marker(s: Seq<char>) -> Seq<char>
    decreases s.len(),
{
    if s.len() > 0 && is_marker_char(s[0]) {
        strip_marker(s.drop_first())
    } else {
        s
    }
}

/// The rewrite a line command makes to one line (`index` counts from 0).
pub open spec fn rewrite_line(c: MarkdownCommand, index: int, line: Seq<char>) -> Seq<char> {
    let tr = trim_start(line);
    match c {
        MarkdownCommand::Heading1 => "# "@ + trim(strip_all(line, "# "@)),
        MarkdownCommand::BulletList => if starts_with(tr, "- "@) || starts_with(tr, "* "@) {
            tr
        } else {
            "- "@ + tr
        },
        MarkdownCommand::OrderedList => decimal((index + 1) as nat) + ". "@ + trim_start(
            strip_marker(line),
        ),
        MarkdownCommand::BlockQuote => "> "@ + trim_start(strip_all(line, "> "@)),
        MarkdownCommand::TaskToggle => if starts_with(tr, "- [ ] "@) {
            "- [x] "@ + tr.subrange(6, tr.len() as int)
        } else if starts_with(tr, "- [x] "@) {
            "- [ ] "@ + tr.subrange(6, tr.len() as int)
        } else {
            "- [ ] "@ + tr
        },
        _ => line,
    }
}

/// Whether a command rewrites whole lines.
pub open spec fn is_line_command(c: MarkdownCommand) -> bool {
    c == MarkdownCommand::Heading1 || c == MarkdownCommand::BulletList || c
        == MarkdownCommand::OrderedList || c == MarkdownCommand::BlockQuote || c
        == MarkdownCommand::TaskToggle
}

/// The lines a line command works on: those of the segment, or one empty
/// line for an empty segment.
pub open spec fn work_lines(seg: Seq<char>) -> Seq<Seq<char>> {
    if lines_of(seg).len() == 0 {
        seq![Seq::empty()]
    } else {
        lines_of(seg)
    }
}

/// Every line rewritten.
pub open spec fn rewrite_lines(c: MarkdownCommand, ls: Seq<Seq<char>>) -> Seq<Seq<char>> {
    Seq::new(ls.len(), |i: int| rewrite_line(c, i, ls[i]))
}

/// What replaces the segment under a line command.
pub open spec fn line_replacement(c: MarkdownCommand, seg: Seq<char>) -> Seq<char> {
    join_lines(rewrite_lines(c, work_lines(seg))) + if seg.len() > 0 && seg.last() == '\n' {
        seq!['\n']
    } else {
        Seq::empty()
    }
}

/// The range a command replaces and what replaces it.
pub open spec fn command_plan(t: Seq<char>, sel: (usize, usize), c: MarkdownCommand) -> (
    int,
    int,
    Seq<char>,
) {
    let (s, e) = sel_bounds(t.len() as int, sel);
    let picked = t.subrange(s, e);
    if is_line_command(c) {
        let (ls, le) = line_bounds(t, sel);
        (ls, le, line_replacement(c, t.subrange(ls, le)))
    } else {
        match c {
            MarkdownCommand::CodeBlock => (s, e, "```\n"@ + picked + "\n```"@),
            MarkdownCommand::HorizontalRule => (s, e, "\n\n---\n\n"@),
            MarkdownCommand::Link => (s, e, "["@ + (if s == e {
                "link text"@
            } else {
                picked
            }) + "](https://example.com)"@),
            _ => (s, e, "[["@ + (if s == e {
                "Note"@
            } else {
                picked
            }) + "]]"@),
        }
    }
}

/// Whether `r` is the text edit that replaces `t[a..b]` by `rep`.
pub open spec fn is_edit(r: TextEdit, t: Seq<char>, a: int, b: int, rep: Seq<char>) -> bool {
    &&& r.text@ == t.subrange(0, a) + rep + t.subrange(b, t.len() as int)
    &&& r.selection.0 == a
    &&& r.selection.1 == a + rep.len()
}

/// The clamped, ordered ends of a selection.
pub fn byte_selection(n: usize, selection: (usize, usize)) -> (r: (usize, usize))
    ensures
        (r.0 as int, r.1 as int) == sel_bounds(n as int, selection),
{
    let a = if selection.0 < n {
        selection.0
    } else {
        n
    };
    let b = if selection.1 < n {
        selection.1
    } else {
        n
    };
    if a <= b {
        (a, b)
    } else {
        (b, a)
    }
}

proof fn lemma_line_start_bound(t: Seq<char>, s: int)
    requires
        0 <= s <= t.len(),
    ensures
        0 <= line_start(t, s) <= s,
    decreases s,
{
    if s > 0 && t[s - 1] != '\n' {
        lemma_line_start_bound(t, s - 1);
    }
}

proof fn lemma_line_end_bound(t: Seq<char>, e: int)
    requires
        0 <= e <= t.len(),
    ensures
        e <= line_end(t, e) <= t.len(),
        line_end(t, e) < t.len() ==> t[line_end(t, e)] == '\n',
    decreases t.len() - e,
{
    if e < t.len() && t[e] != '\n' {
        lemma_line_end_bound(t, e + 1);
    }
}

/// The selection grown to whole lines.
pub fn expand_selection_to_lines(t: &Vec<char>, selection: (usize, usize)) -> (r: (usize, usize))
    ensures
        (r.0 as int, r.1 as int) == line_bounds(t@, selection),
        r.0 <= r.1 <= t.len(),
{
    let (s, e) = byte_selection(t.len(), selection);
    let mut start = s;
    proof {
        lemma_line_end_bound(t@, e as int);
    }
    while start > 0 && t[start - 1] != '\n'
        invariant
            start <= s <= t.len(),
            line_start(t@, start as int) == line_start(t@, s as int),
        decreases start,
    {
        start = start - 1;
    }
    let mut end = e;
    while end < t.len() && t[end] != '\n'
        invariant
            e <= end <= t.len(),
            line_end(t@, end as int) == line_end(t@, e as int),
        decreases t.len() - end,
    {
        end = end + 1;
    }
    if end < t.len() {
        end = end + 1;
    }
    proof {
        lemma_line_start_bound(t@, s as int);
    }
    (start, end)
}

/// Replaces `t[start..end]` by `replacement`, selecting the inserted part.
pub fn replace_range(t: &Vec<char>, start: usize, end: usize, replacement: &Vec<char>) -> (r: TextEdit)
    requires
        start <= end <= t.len(),
    ensures
        is_edit(r, t@, start as int, end as int, replacement@),
{
    let mut out: Vec<char> = Vec::new();
    let mut i: usize = 0;
    while i < start
        invariant
            i <= start <= end <= t.len(),
            out@ == t@.subrange(0, i as int),
        decreases start - i,
    {
        out.push(t[i]);
        i = i + 1;
        assert(out@ =~= t@.subrange(0, i as int));
    }
    let mut j: usize = 0;
    while j < replacement.len()
        invariant
            j <= replacement.len(),
            out@ == t@.subrange(0, start as int) + replacement@.subrange(0, j as int),
        decreases replacement.len() - j,
    {
        out.push(replacement[j]);
        j = j + 1;
        assert(out@ =~= t@.subrange(0, start as int) + replacement@.subrange(0, j as int));
    }
    assert(replacement@.subrange(0, replacement.len() as int) =~= replacement@);
    let sel_end = out.len();
    let mut k: usize = end;
    while k < t.len()
        invariant
            end <= k <= t.len(),
            out@ == t@.subrange(0, start as int) + replacement@ + t@.subrange(end as int, k as int),
        decreases t.len() - k,
    {
        out.push(t[k]);
        k = k + 1;
        assert(out@ =~= t@.subrange(0, start as int) + replacement@ + t@.subrange(
            end as int,
            k as int,
        ));
    }
    TextEdit { text: string_from_chars(&out), selection: (start, sel_end) }
}

/// The lines of `seg`, as `str::lines` gives them.
pub fn split_lines(seg: &Vec<char>) -> (r: Vec<Vec<char>>)
    ensures
        r@.map_values(|l: Vec<char>| l@) == lines_of(seg@),
{
    let mut r: Vec<Vec<char>> = Vec::new();
    let mut i: usize = 0;
    let mut cur: Vec<char> = Vec::new();
    while i < seg.len()
        invariant
            i <= seg.len(),
            r@.map_values(|l: Vec<char>| l@) + lines_from(seg@, i as int) == lines_of(seg@),
        decreases seg.len() - i,
    {
        let mut j: usize = i;
        while j < seg.len() && seg[j] != '\n'
            invariant
                i <= j <= seg.len(),
                next_newline(seg@, j as int) == next_newline(seg@, i as int),
            decreases seg.len() - j,
        {
            j = j + 1;
        }
        let ghost before = r@.map_values(|l: Vec<char>| l@);
        if j >= seg.len() {
            let line = slice_chars(seg, i, j);
            r.push(line);
            assert(r@.map_values(|l: Vec<char>| l@) =~= before + lines_from(seg@, i as int));
            assert(lines_from(seg@, j as int) =~= Seq::<Seq<char>>::empty());
            i = j;
        } else {
            let mut e: usize = j;
            if e > i && seg[e - 1] == '\r' {
                e = e - 1;
            }
            let line = slice_chars(seg, i, e);
            assert(line@ == strip_cr(seg@.subrange(i as int, j as int))) by {
                if j > i && seg@[j - 1] == '\r' {
                    assert(seg@.subrange(i as int, j as int).drop_last() =~= seg@.subrange(
                        i as int,
                        e as int,
                    ));
                }
            }
            r.push(line);
            assert(r@.map_values(|l: Vec<char>| l@) + lines_from(seg@, j + 1) =~= before
                + lines_from(seg@, i as int));
            i = j + 1;
        }
    }
    assert(r@.map_values(|l: Vec<char>| l@) =~= r@.map_values(|l: Vec<char>| l@) + lines_from(
        seg@,
        i as int,
    ));
    r
}

/// Whether `v[at..]` starts with the characters of `p`.
fn starts_at(v: &Vec<char>, at: usize, p: &str) -> (r: bool)
    requires
        at <= v.len(),
    ensures
        r == starts_with(v@.subrange(at as int, v.len() as int), p@),
{
    let pv = crate::text::chars_of(p);
    let r = crate::text::has_prefix_at(v, at, &pv);
    proof {
        let rest = v@.subrange(at as int, v.len() as int);
        if pv.len() <= rest.len() {
            assert(rest.subrange(0, pv.len() as int) =~= v@.subrange(at as int, at + pv.len()));
        }
    }
    r
}

/// The offset after every leading repetition of `p` in `v[from..]`.
fn skip_all(v: &Vec<char>, from: usize, p: &str) -> (r: usize)
    requires
        from <= v.len(),
        p@.len() > 0,
    ensures
        from <= r <= v.len(),
        v@.subrange(r as int, v.len() as int) == strip_all(v@.subrange(from as int, v.len() as int), p@),
{
    let n = crate::text::chars_of(p).len();
    let mut i = from;
    while starts_at(v, i, p)
        invariant
            from <= i <= v.len(),
            n == p@.len(),
            n > 0,
            strip_all(v@.subrange(i as int, v.len() as int), p@) == strip_all(
                v@.subrange(from as int, v.len() as int),
                p@,
            ),
        decreases v.len() - i,
    {
        assert(v@.subrange(i as int, v.len() as int).subrange(n as int, v.len() - i) =~= v@.subrange(
            i + n,
            v.len() as int,
        ));
        i = i + n;
    }
    i
}

/// The offset after the leading marker characters of `v`.
fn skip_marker(v: &Vec<char>) -> (r: usize)
    ensures
        r <= v.len(),
        v@.subrange(r as int, v.len() as int) == strip_marker(v@),
{
    let mut i: usize = 0;
    assert(v@.subrange(0, v.len() as int) =~= v@);
    while i < v.len() && (('0' <= v[i] && v[i] <= '9') || v[i] == '.' || v[i] == ' ')
        invariant
            i <= v.len(),
            strip_marker(v@.subrange(i as int, v.len() as int)) == strip_marker(v@),
        decreases v.len() - i,
    {
        assert(v@.subrange(i as int, v.len() as int).drop_first() =~= v@.subrange(i + 1, v.len() as int));
        i = i + 1;
    }
    i
}

/// `v[from..]` without its leading white space, as a start offset.
fn skip_spaces_from(v: &Vec<char>, from: usize) -> (r: usize)
    requires
        from <= v.len(),
    ensures
        from <= r <= v.len(),
        v@.subrange(r as int, v.len() as int) == trim_start(v@.subrange(from as int, v.len() as int)),
{
    let rest = slice_chars(v, from, v.len());
    let k = skip_spaces(&rest);
    proof {
        lemma_lead_spaces_bound(rest@);
        assert(rest@.subrange(k as int, rest.len() as int) =~= v@.subrange(from + k, v.len() as int));
    }
    from + k
}

/// Appends the characters of a literal.
fn push_lit(out: &mut Vec<char>, s: &str)
    ensures
        final(out)@ == old(out)@ + s@,
{
    let v = crate::text::chars_of(s);
    let mut i: usize = 0;
    while i < v.len()
        invariant
            i <= v.len(),
            v@ == s@,
            out@ == old(out)@ + v@.subrange(0, i as int),
        decreases v.len() - i,
    {
        out.push(v[i]);
        i = i + 1;
        assert(out@ =~= old(out)@ + v@.subrange(0, i as int));
    }
    assert(v@.subrange(0, v.len() as int) =~= v@);
}

/// Appends `v[from..to]`.
fn push_range(out: &mut Vec<char>, v: &Vec<char>, from: usize, to: usize)
    requires
        from <= to <= v.len(),
    ensures
        final(out)@ == old(out)@ + v@.subrange(from as int, to as int),
{
    let mut i: usize = from;
    while i < to
        invariant
            from <= i <= to <= v.len(),
            out@ == old(out)@ + v@.subrange(from as int, i as int),
        decreases to - i,
    {
        out.push(v[i]);
        i = i + 1;
        assert(out@ =~= old(out)@ + v@.subrange(from as int, i as int));
    }
}

/// One line rewritten by a line command.
pub fn rewrite_one_line(c: MarkdownCommand, index: usize, line: &Vec<char>) -> (r: Vec<char>)
    requires
        is_line_command(c),
        index < usize::MAX,
    ensures
        r@ == rewrite_line(c, index as int, line@),
{
    let mut out: Vec<char> = Vec::new();
    let n = line.len();
    assert(line@.subrange(0, n as int) =~= line@);
    match c {
        MarkdownCommand::Heading1 => {
            proof {
                reveal_strlit("# ");
            }
            let a = skip_all(line, 0, "# ");
            let rest = slice_chars(line, a, n);
            let (x, y) = trim_bounds(&rest);
            push_lit(&mut out, "# ");
            push_range(&mut out, &rest, x, y);
        },
        MarkdownCommand::BulletList => {
            let a = skip_spaces_from(line, 0);
            if !(starts_at(line, a, "- ") || starts_at(line, a, "* ")) {
                push_lit(&mut out, "- ");
            }
            push_range(&mut out, line, a, n);
        },
        MarkdownCommand::OrderedList => {
            let m = skip_marker(line);
            let a = skip_spaces_from(line, m);
            let num = u64_to_string((index + 1) as u64);
            let digits = crate::text::chars_of(num.as_str());
            push_range(&mut out, &digits, 0, digits.len());
            assert(digits@.subrange(0, digits.len() as int) =~= digits@);
            push_lit(&mut out, ". ");
            push_range(&mut out, line, a, n);
        },
        MarkdownCommand::BlockQuote => {
            proof {
                reveal_strlit("> ");
            }
            let a = skip_all(line, 0, "> ");
            let b = skip_spaces_from(line, a);
            push_lit(&mut out, "> ");
            push_range(&mut out, line, b, n);
        },
        _ => {
            let a = skip_spaces_from(line, 0);
            proof {
                reveal_strlit("- [ ] ");
                reveal_strlit("- [x] ");
            }
            if starts_at(line, a, "- [ ] ") {
                push_lit(&mut out, "- [x] ");
                push_range(&mut out, line, a + 6, n);
                assert(line@.subrange(a as int, n as int).subrange(6, n - a) =~= line@.subrange(
                    a + 6,
                    n as int,
                ));
            } else if starts_at(line, a, "- [x] ") {
                push_lit(&mut out, "- [ ] ");
                push_range(&mut out, line, a + 6, n);
                assert(line@.subrange(a as int, n as int).subrange(6, n - a) =~= line@.subrange(
                    a + 6,
                    n as int,
                ));
            } else {
                push_lit(&mut out, "- [ ] ");
                push_range(&mut out, line, a, n);
            }
        },
    }
    out
}

/// The lines joined with newlines.
fn join_with_newlines(ls: &Vec<Vec<char>>) -> (r: Vec<char>)
    ensures
        r@ == join_lines(ls@.map_values(|l: Vec<char>| l@)),
{
    let mut out: Vec<char> = Vec::new();
    let mut i: usize = 0;
    while i < ls.len()
        invariant
            i <= ls.len(),
            out@ == join_lines(ls@.subrange(0, i as int).map_values(|l: Vec<char>| l@)),
        decreases ls.len() - i,
    {
        let ghost prev = ls@.subrange(0, i as int).map_values(|l: Vec<char>| l@);
        let ghost next = ls@.subrange(0, i + 1).map_values(|l: Vec<char>| l@);
        assert(next.drop_last() =~= prev);
        if i > 0 {
            out.push('\n');
        }
        let l = &ls[i];
        push_range(&mut out, l, 0, l.len());
        assert(l@.subrange(0, l.len() as int) =~= l@);
        if i == 0 {
            assert(out@ =~= join_lines(next));
        } else {
            assert(out@ =~= join_lines(next));
        }
        i = i + 1;
    }
    assert(ls@.subrange(0, ls.len() as int) =~= ls@);
    out
}

/// A line command applied to each line the selection touches: the selection
/// is widened to whole lines, each line is rewritten with its index among
/// them, and the lines are joined again, keeping a final newline.
pub fn transform_selected_lines(t: &Vec<char>, selection: (usize, usize), command: MarkdownCommand) -> (r:
    TextEdit)
    requires
        is_line_command(command),
    ensures
        ({
            let (ls, le) = line_bounds(t@, selection);
            is_edit(r, t@, ls, le, line_replacement(command, t@.subrange(ls, le)))
        }),
{
    let (ls, le) = expand_selection_to_lines(t, selection);
    let seg = slice_chars(t, ls, le);
    let mut lines = split_lines(&seg);
    if lines.len() == 0 {
        lines.push(Vec::new());
        assert(lines@.map_values(|l: Vec<char>| l@) =~= work_lines(seg@));
    }
    let ghost wl = work_lines(seg@);
    assert(lines@.map_values(|l: Vec<char>| l@) == wl);
    let mut rewritten: Vec<Vec<char>> = Vec::new();
    let mut i: usize = 0;
    while i < lines.len()
        invariant
            i <= lines.len(),
            is_line_command(command),
            lines@.map_values(|l: Vec<char>| l@) == wl,
            rewritten@.len() == i,
            forall|k: int| 0 <= k < i ==> (#[trigger] rewritten@[k])@ == rewrite_line(command, k, wl[k]),
        decreases lines.len() - i,
    {
        assert(lines@[i as int]@ == wl[i as int]);
        let l = rewrite_one_line(command, i, &lines[i]);
        rewritten.push(l);
        i = i + 1;
    }
    let mut joined = join_with_newlines(&rewritten);
    assert(rewritten@.map_values(|l: Vec<char>| l@) =~= rewrite_lines(command, wl));
    if seg.len() > 0 && seg[seg.len() - 1] == '\n' {
        joined.push('\n');
    }
    assert(joined@ =~= line_replacement(command, seg@));
    replace_range(t, ls, le, &joined)
}

/// The selection wrapped in `prefix` and `suffix`.
pub fn wrap_selection(t: &Vec<char>, selection: (usize, usize), prefix: &str, suffix: &str) -> (r: TextEdit)
    ensures
        ({
            let (s, e) = sel_bounds(t@.len() as int, selection);
            is_edit(r, t@, s, e, prefix@ + t@.subrange(s, e) + suffix@)
        }),
{
    let (s, e) = byte_selection(t.len(), selection);
    let mut rep: Vec<char> = Vec::new();
    push_lit(&mut rep, prefix);
    push_range(&mut rep, t, s, e);
    push_lit(&mut rep, suffix);
    replace_range(t, s, e, &rep)
}

/// The selection wrapped in `prefix` and `suffix`, or `placeholder` so
/// wrapped where the selection is empty.
pub fn wrap_selection_or_placeholder(
    t: &Vec<char>,
    selection: (usize, usize),
    prefix: &str,
    suffix: &str,
    placeholder: &str,
) -> (r: TextEdit)
    ensures
        ({
            let (s, e) = sel_bounds(t@.len() as int, selection);
            let inner = if s == e {
                placeholder@
            } else {
                t@.subrange(s, e)
            };
            is_edit(r, t@, s, e, prefix@ + inner + suffix@)
        }),
{
    let (s, e) = byte_selection(t.len(), selection);
    let mut rep: Vec<char> = Vec::new();
    push_lit(&mut rep, prefix);
    if s == e {
        push_lit(&mut rep, placeholder);
    } else {
        push_range(&mut rep, t, s, e);
    }
    push_lit(&mut rep, suffix);
    replace_range(t, s, e, &rep)
}

/// The selection replaced by `inserted`.
pub fn insert_at_selection(t: &Vec<char>, selection: (usize, usize), inserted: &str) -> (r: TextEdit)
    ensures
        ({
            let (s, e) = sel_bounds(t@.len() as int, selection);
            is_edit(r, t@, s, e, inserted@)
        }),
{
    let (s, e) = byte_selection(t.len(), selection);
    let rep = crate::text::chars_of(inserted);
    replace_range(t, s, e, &rep)
}

/// Applies a formatting command to `text` with the given selection.
pub fn apply_markdown_command(text: &str, selection: (usize, usize), command: MarkdownCommand) -> (r:
    TextEdit)
    ensures
        ({
            let (a, b, rep) = command_plan(text@, selection, command);
            is_edit(r, text@, a, b, rep)
        }),
{
    let t = crate::text::chars_of(text);
    match command {
        MarkdownCommand::CodeBlock => wrap_selection(&t, selection, "```\n", "\n```"),
        MarkdownCommand::HorizontalRule => insert_at_selection(&t, selection, "\n\n---\n\n"),
        MarkdownCommand::Link => wrap_selection_or_placeholder(
            &t,
            selection,
            "[",
            "](https://example.com)",
            "link text",
        ),
        MarkdownCommand::WikiLink => wrap_selection_or_placeholder(&t, selection, "[[", "]]", "Note"),
        _ => transform_selected_lines(&t, selection, command),
    }
}

/// Every character of a decimal numeral is a digit.
proof fn lemma_decimal_digits(n: nat)
    ensures
        forall|k: int| 0 <= k < decimal(n).len() ==> '0' <= #[trigger] decimal(n)[k] <= '9',
    decreases n,
{
    let d = n % 10;
    assert(('0' as u32) + d <= ('9' as u32));
    if n >= 10 {
        lemma_decimal_digits(n / 10);
        assert forall|k: int| 0 <= k < decimal(n).len() implies '0' <= #[trigger] decimal(n)[k] <= '9' by {
            if k < decimal(n / 10).len() {
                assert(decimal(n)[k] == decimal(n / 10)[k]);
            }
        }
    }
}

/// Marker characters in front of a text are all stripped.
proof fn lemma_strip_marker_prefix(p: Seq<char>, r: Seq<char>)
    requires
        forall|k: int| 0 <= k < p.len() ==> is_marker_char(#[trigger] p[k]),
    ensures
        strip_marker(p + r) == strip_marker(r),
    decreases p.len(),
{
    if p.len() > 0 {
        assert((p + r).drop_first() =~= p.drop_first() + r);
        assert((p + r)[0] == p[0]);
        lemma_strip_marker_prefix(p.drop_first(), r);
    } else {
        assert(p + r =~= r);
    }
}

/// Stripping the marker leaves a tail of the line that starts with no
/// marker character.
proof fn lemma_strip_marker_tail(s: Seq<char>)
    ensures
        exists|m: int| 0 <= m <= s.len() && strip_marker(s) == s.subrange(m, s.len() as int),
        strip_marker(s).len() > 0 ==> !is_marker_char(strip_marker(s)[0]),
        strip_marker(s).len() <= s.len(),
        forall|k: int| 0 <= k < strip_marker(s).len() ==> #[trigger] strip_marker(s)[k] == s[s.len() - strip_marker(s).len() + k],
    decreases s.len(),
{
    if s.len() > 0 && is_marker_char(s[0]) {
        lemma_strip_marker_tail(s.drop_first());
        let m = choose|m: int| 0 <= m <= s.drop_first().len() && strip_marker(s.drop_first()) == s.drop_first().subrange(m, s.drop_first().len() as int);
        assert(s.drop_first().subrange(m, s.drop_first().len() as int) =~= s.subrange(m + 1, s.len() as int));
    } else {
        assert(s.subrange(0, s.len() as int) =~= s);
    }
}

/// Renumbering a line the ordered-list command already numbered gives the
/// same line as numbering the original: the old marker (its digits, dots and
/// spaces) is dropped rather than kept, so a numbered line always carries
/// exactly one marker. This holds for every line whose only white space is
/// plain spaces (a tab or other white space just before the text ends the
/// marker and is then trimmed away, letting digits behind it be read as a
/// marker the second time).
pub proof fn law_ordered_list_renumbers(line: Seq<char>, i: int, j: int)
    requires
        i >= 0,
        j >= 0,
        forall|k: int| 0 <= k < line.len() && is_space(#[trigger] line[k]) ==> line[k] == ' ',
    ensures
        rewrite_line(MarkdownCommand::OrderedList, j, rewrite_line(MarkdownCommand::OrderedList, i, line))
            == rewrite_line(MarkdownCommand::OrderedList, j, line),
{
    reveal_strlit(". ");
    let sm = strip_marker(line);
    lemma_strip_marker_tail(line);
    if sm.len() > 0 {
        let k = line.len() - sm.len();
        assert(sm[0] == line[k]);
        assert(!is_space(sm[0]));
    }
    assert(lead_spaces(sm) == 0);
    assert(trim_start(sm) =~= sm);
    let d = decimal((i + 1) as nat);
    lemma_decimal_digits((i + 1) as nat);
    let p = d + ". "@;
    assert forall|k: int| 0 <= k < p.len() implies is_marker_char(#[trigger] p[k]) by {
        if k < d.len() {
            assert(p[k] == d[k]);
        }
    }
    assert(rewrite_line(MarkdownCommand::OrderedList, i, line) == p + sm);
    lemma_strip_marker_prefix(p, sm);
    assert(strip_marker(sm) == sm);
}

} // verus!
