//! The note graph: which scope it shows, its status line, and what the side
//! panel says about the selected node. Node positions and drawing belong to
//! the widget.
use vstd::prelude::*;
use vstd::string::*;
use crate::client::{slice_chars, GraphEdge};
use crate::text::{chars_of, concat, str_eq, string_from_chars};
use crate::ui::explorer::last_slash;
use crate::ui::frontmatter::{chars_lt, key_lt, strip_trail_char};

verus! {

/// Whether the graph shows the whole vault or the notes around a selection.
#[derive(Debug, Clone, Copy, PartialEq, Eq, Structural)]
pub enum GraphScope {
    Vault,
    Neighborhood,
}

/// Where loading the graph stands.
#[derive(Debug, Clone, PartialEq, Eq)]
pub enum GraphLoadState {
    Idle,
    Loading,
    Ready,
    Empty,
    Error(String),
}

/// The load state of a graph that arrived with `node_count` nodes.
pub fn ready_load_state(node_count: usize) -> (r: GraphLoadState)
    ensures
        node_count == 0 ==> r is Empty,
        node_count > 0 ==> r is Ready,
{
    if node_count == 0 {
        GraphLoadState::Empty
    } else {
        GraphLoadState::Ready
    }
}

/// The status line of the graph.
pub open spec fn status_spec(scope: GraphScope, state: GraphLoadState) -> Seq<char> {
    match state {
        GraphLoadState::Idle => "Graph is idle"@,
        GraphLoadState::Loading => match scope {
            GraphScope::Vault => "Loading vault graph..."@,
            GraphScope::Neighborhood => "Loading graph neighborhood..."@,
        },
        GraphLoadState::Ready => match scope {
            GraphScope::Vault => "Vault graph"@,
            GraphScope::Neighborhood => "Node neighborhood"@,
        },
        GraphLoadState::Empty => match scope {
            GraphScope::Vault => "Vault graph is empty"@,
            GraphScope::Neighborhood => "No neighboring notes found"@,
        },
        GraphLoadState::Error(m) => "Graph error: "@ + m@,
    }
}

/// The status line of the graph.
pub fn graph_status_text(scope: GraphScope, state: &GraphLoadState) -> (r: String)
    ensures
        r@ == status_spec(scope, *state),
{
    match state {
        GraphLoadState::Idle => String::from_str("Graph is idle"),
        GraphLoadState::Loading => match scope {
            GraphScope::Vault => String::from_str("Loading vault graph..."),
            GraphScope::Neighborhood => String::from_str("Loading graph neighborhood..."),
        },
        GraphLoadState::Ready => match scope {
            GraphScope::Vault => String::from_str("Vault graph"),
            GraphScope::Neighborhood => String::from_str("Node neighborhood"),
        },
        GraphLoadState::Empty => match scope {
            GraphScope::Vault => String::from_str("Vault graph is empty"),
            GraphScope::Neighborhood => String::from_str("No neighboring notes found"),
        },
        GraphLoadState::Error(message) => concat("Graph error: ", message.as_str()),
    }
}

/// The last component of a path.
pub open spec fn base_name(p: Seq<char>) -> Seq<char> {
    p.subrange(last_slash(p) + 1, p.len() as int)
}

/// The last component of a path.
pub fn basename(path: &Vec<char>) -> (r: Vec<char>)
    ensures
        r@ == base_name(path@),
{
    let mut j: usize = path.len();
    assert(path@.subrange(0, path.len() as int) =~= path@);
    while j > 0 && path[j - 1] != '/'
        invariant
            j <= path.len(),
            last_slash(path@.subrange(0, j as int)) == last_slash(path@),
        decreases j,
    {
        assert(path@.subrange(0, j as int).drop_last() =~= path@.subrange(0, j - 1));
        j = j - 1;
    }
    slice_chars(path, j, path.len())
}

/// `s` without its trailing repetitions of `.md`.
pub open spec fn strip_md(s: Seq<char>) -> Seq<char>
    decreases s.len(),
{
    if s.len() >= 3 && s.subrange(s.len() - 3, s.len() as int) == ".md"@ {
        strip_md(s.subrange(0, s.len() - 3))
    } else {
        s
    }
}

/// The label a node is shown with when it has none: its file name without
/// the `.md` extension.
pub fn label_for_path(path: &str) -> (r: String)
    ensures
        r@ == strip_md(base_name(path@)),
{
    let b = basename(&chars_of(path));
    let md = chars_of(".md");
    proof {
        reveal_strlit(".md");
    }
    let mut end: usize = b.len();
    assert(b@.subrange(0, b.len() as int) =~= b@);
    while end >= 3 && crate::text::has_prefix_at(&b, end - 3, &md)
        invariant
            end <= b.len(),
            md@ == ".md"@,
            strip_md(b@.subrange(0, end as int)) == strip_md(b@),
        decreases end,
    {
        proof {
            reveal_strlit(".md");
        }
        let ghost s = b@.subrange(0, end as int);
        assert(s.subrange(s.len() - 3, s.len() as int) =~= b@.subrange(end - 3, end as int));
        assert(s.subrange(0, s.len() - 3) =~= b@.subrange(0, end - 3));
        assert(strip_md(s) == strip_md(s.subrange(0, s.len() - 3)));
        end = end - 3;
    }
    proof {
        reveal_strlit(".md");
        let s = b@.subrange(0, end as int);
        if end >= 3 {
            assert(s.subrange(s.len() - 3, s.len() as int) =~= b@.subrange(end - 3, end as int));
        }
    }
    string_from_chars(&slice_chars(&b, 0, end))
}

/// What the side panel says about the selected node.
#[derive(Debug, Clone, PartialEq, Eq)]
pub struct GraphContextDetails {
    pub selected_path: Option<String>,
    pub selected_label: Option<String>,
    pub neighbors: Vec<String>,
    pub backlinks: Vec<String>,
}

impl GraphContextDetails {
    /// Nothing selected.
    pub fn empty() -> (r: Self)
        ensures
            r.selected_path is None,
            r.selected_label is None,
            r.neighbors@.len() == 0,
            r.backlinks@.len() == 0,
    {
        GraphContextDetails {
            selected_path: None,
            selected_label: None,
            neighbors: Vec::new(),
            backlinks: Vec::new(),
        }
    }
}

/// Whether a list of texts is strictly increasing (sorted, no repeats).
pub open spec fn strictly_sorted(s: Seq<Seq<char>>) -> bool {
    forall|i: int, j: int| 0 <= i < j < s.len() ==> key_lt(s[i], s[j])
}

/// The views of a list of strings.
pub open spec fn views(v: Seq<String>) -> Seq<Seq<char>> {
    v.map_values(|s: String| s@)
}

/// The targets of the edges leaving `p`.
pub open spec fn targets_of(edges: Seq<GraphEdge>, p: Seq<char>) -> Set<Seq<char>> {
    Set::new(|t: Seq<char>| exists|i: int| 0 <= i < edges.len() && edges[i].source@ == p && edges[i].target@ == t)
}

/// The sources of the edges reaching `p`.
pub open spec fn sources_of(edges: Seq<GraphEdge>, p: Seq<char>) -> Set<Seq<char>> {
    Set::new(|t: Seq<char>| exists|i: int| 0 <= i < edges.len() && edges[i].target@ == p && edges[i].source@ == t)
}

proof fn lemma_key_lt_irreflexive(a: Seq<char>)
    ensures
        !key_lt(a, a),
    decreases a.len(),
{
    if a.len() > 0 {
        lemma_key_lt_irreflexive(a.drop_first());
    }
}

proof fn lemma_key_lt_total(a: Seq<char>, b: Seq<char>)
    ensures
        a == b || key_lt(a, b) || key_lt(b, a),
    decreases a.len(),
{
    if a.len() > 0 && b.len() > 0 && (a[0] as u32) == (b[0] as u32) {
        lemma_key_lt_total(a.drop_first(), b.drop_first());
        vstd::utf8::char_u32_cast(a[0], a[0] as u32);
        vstd::utf8::char_u32_cast(b[0], b[0] as u32);
        assert(a[0] == b[0]);
        if a.drop_first() == b.drop_first() {
            assert(a =~= seq![a[0]] + a.drop_first());
            assert(b =~= seq![b[0]] + b.drop_first());
        }
    } else if a.len() == 0 && b.len() == 0 {
        assert(a =~= b);
    }
}

proof fn lemma_key_lt_transitive(a: Seq<char>, b: Seq<char>, c: Seq<char>)
    requires
        key_lt(a, b),
        key_lt(b, c),
    ensures
        key_lt(a, c),
    decreases a.len(),
{
    if a.len() > 0 && b.len() > 0 && c.len() > 0 && (a[0] as u32) == (b[0] as u32) && (b[0] as u32)
        == (c[0] as u32) {
        lemma_key_lt_transitive(a.drop_first(), b.drop_first(), c.drop_first());
    }
}

/// Adds `x` to a strictly sorted list unless it is there already.
fn insert_sorted_unique(list: &mut Vec<String>, x: &String)
    requires
        strictly_sorted(views(old(list)@)),
    ensures
        strictly_sorted(views(final(list)@)),
        views(final(list)@).to_set() == views(old(list)@).to_set().insert(x@),
{
    let xv = chars_of(x.as_str());
    let ghost old_v = views(list@);
    let mut pos: usize = 0;
    while pos < list.len() && chars_lt(&chars_of(list[pos].as_str()), &xv)
        invariant
            pos <= list.len(),
            old_v == views(list@),
            xv@ == x@,
            forall|k: int| 0 <= k < pos ==> key_lt(#[trigger] old_v[k], x@),
        decreases list.len() - pos,
    {
        pos = pos + 1;
    }
    if pos < list.len() && str_eq(list[pos].as_str(), x.as_str()) {
        assert(old_v[pos as int] == x@);
        assert(views(list@).to_set() =~= old_v.to_set().insert(x@));
        return;
    }
    proof {
        if pos < list.len() {
            lemma_key_lt_total(old_v[pos as int], x@);
        }
    }
    list.insert(pos, x.clone());
    proof {
        let nv = views(list@);
        assert(nv =~= old_v.insert(pos as int, x@));
        assert forall|i: int, j: int| 0 <= i < j < nv.len() implies key_lt(nv[i], nv[j]) by {
            if j < pos {
            } else if j == pos {
            } else if i < pos {
                assert(nv[j] == old_v[j - 1]);
                if j - 1 > pos {
                    lemma_key_lt_transitive(x@, old_v[pos as int], old_v[j - 1]);
                }
                lemma_key_lt_transitive(nv[i], x@, nv[j]);
            } else if i == pos {
                assert(nv[j] == old_v[j - 1]);
                if j - 1 > pos {
                    lemma_key_lt_transitive(x@, old_v[pos as int], old_v[j - 1]);
                }
            } else {
                assert(nv[i] == old_v[i - 1]);
                assert(nv[j] == old_v[j - 1]);
            }
        }
        assert(nv.to_set() =~= old_v.to_set().insert(x@)) by {
            assert forall|t: Seq<char>| nv.to_set().contains(t) <==> old_v.to_set().insert(x@).contains(t) by {
                if nv.to_set().contains(t) {
                    let k = choose|k: int| 0 <= k < nv.len() && nv[k] == t;
                    if k < pos {
                        assert(old_v[k] == t);
                    } else if k > pos {
                        assert(old_v[k - 1] == t);
                    }
                }
                if old_v.to_set().contains(t) {
                    let k = choose|k: int| 0 <= k < old_v.len() && old_v[k] == t;
                    if k < pos {
                        assert(nv[k] == t);
                    } else {
                        assert(nv[k + 1] == t);
                    }
                }
                if t == x@ {
                    assert(nv[pos as int] == t);
                }
            }
        }
    }
}

/// What the side panel says about the selected node of a graph with the
/// given node labels (`(id, label)`) and edges: its label (from the node
/// list, else from its path), the notes it links to and the notes linking
/// to it, each sorted and without repeats.
pub fn graph_context_details(
    selected_path: Option<&str>,
    node_labels: &Vec<(String, String)>,
    edges: &Vec<GraphEdge>,
) -> (r: GraphContextDetails)
    ensures
        selected_path is None ==> r.selected_path is None && r.selected_label is None
            && r.neighbors@.len() == 0 && r.backlinks@.len() == 0,
        selected_path matches Some(p) ==> ({
            &&& r.selected_path matches Some(s) && s@ == p@
            &&& r.selected_label matches Some(l) && (l@ == strip_md(base_name(p@)) || exists|i: int|
                0 <= i < node_labels@.len() && node_labels@[i].0@ == p@ && node_labels@[i].1@ == l@)
            &&& (forall|i: int| 0 <= i < node_labels@.len() && node_labels@[i].0@ == p@ ==> (r.selected_label matches Some(l)
                && exists|k: int| 0 <= k <= i && node_labels@[k].0@ == p@ && node_labels@[k].1@ == l@ && forall|m: int|
                0 <= m < k ==> node_labels@[m].0@ != p@))
            &&& strictly_sorted(views(r.neighbors@))
            &&& views(r.neighbors@).to_set() == targets_of(edges@, p@)
            &&& strictly_sorted(views(r.backlinks@))
            &&& views(r.backlinks@).to_set() == sources_of(edges@, p@)
        }),
{
    let p = match selected_path {
        None => {
            return GraphContextDetails::empty();
        },
        Some(p) => p,
    };
    let mut label: Option<String> = None;
    let mut i: usize = 0;
    while i < node_labels.len() && label.is_none()
        invariant
            i <= node_labels.len(),
            label is None ==> forall|k: int| 0 <= k < i ==> node_labels@[k].0@ != p@,
            label matches Some(l) ==> (i > 0 && node_labels@[i - 1].0@ == p@ && node_labels@[i - 1].1@
                == l@ && forall|m: int| 0 <= m < i - 1 ==> node_labels@[m].0@ != p@),
        decreases node_labels.len() - i,
    {
        if str_eq(node_labels[i].0.as_str(), p) {
            label = Some(node_labels[i].1.clone());
        }
        i = i + 1;
    }
    let found = label.is_some();
    let selected_label = match label {
        Some(l) => l,
        None => label_for_path(p),
    };
    let mut neighbors: Vec<String> = Vec::new();
    let mut backlinks: Vec<String> = Vec::new();
    let mut j: usize = 0;
    while j < edges.len()
        invariant
            j <= edges.len(),
            strictly_sorted(views(neighbors@)),
            strictly_sorted(views(backlinks@)),
            views(neighbors@).to_set() == Set::new(|t: Seq<char>| exists|k: int| 0 <= k < j && edges@[k].source@ == p@
                && edges@[k].target@ == t),
            views(backlinks@).to_set() == Set::new(|t: Seq<char>| exists|k: int| 0 <= k < j && edges@[k].target@ == p@
                && edges@[k].source@ == t),
        decreases edges.len() - j,
    {
        let e = &edges[j];
        let ghost nb = views(neighbors@).to_set();
        let ghost bb = views(backlinks@).to_set();
        if str_eq(e.source.as_str(), p) {
            insert_sorted_unique(&mut neighbors, &e.target);
        }
        if str_eq(e.target.as_str(), p) {
            insert_sorted_unique(&mut backlinks, &e.source);
        }
        proof {
            assert(views(neighbors@).to_set() =~= Set::new(|t: Seq<char>| exists|k: int| 0 <= k < j + 1
                && edges@[k].source@ == p@ && edges@[k].target@ == t));
            assert(views(backlinks@).to_set() =~= Set::new(|t: Seq<char>| exists|k: int| 0 <= k < j + 1
                && edges@[k].target@ == p@ && edges@[k].source@ == t));
        }
        j = j + 1;
    }
    assert(views(neighbors@).to_set() =~= targets_of(edges@, p@));
    assert(views(backlinks@).to_set() =~= sources_of(edges@, p@));
    GraphContextDetails {
        selected_path: Some(String::from_str(p)),
        selected_label: Some(selected_label),
        neighbors,
        backlinks,
    }
}

} // verus!
