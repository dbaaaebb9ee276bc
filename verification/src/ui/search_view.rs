//! The search surface: its state, the status line it shows, and the live
//! search rules as a step from state and event to next state and action.
//! The timer and the daemon call are the caller's; the decisions are here.
use vstd::prelude::*;
use vstd::string::*;
use crate::text::{chars_of, concat, decimal, u64_to_string};

verus! {

/// Where a search stands.
#[derive(Debug, Clone, PartialEq, Eq)]
pub enum SearchState {
    Idle,
    Loading { query: String },
    Empty { query: String },
    Results { query: String, count: usize },
    Error { message: String },
}

/// The status line for a search state.
pub open spec fn status_line(s: SearchState) -> Seq<char> {
    match s {
        SearchState::Idle => "Type to search"@,
        SearchState::Loading { .. } => "Searching..."@,
        SearchState::Empty { query } => "No results for '"@ + query@ + "'"@,
        SearchState::Results { query, count } => decimal(count as nat) + " result"@ + (if count == 1 {
            Seq::<char>::empty()
        } else {
            "s"@
        }) + " for '"@ + query@ + "'"@,
        SearchState::Error { message } => "Search error: "@ + message@,
    }
}

impl SearchState {
    /// The status line for this state.
    pub fn status_text(&self) -> (r: String)
        ensures
            r@ == status_line(*self),
    {
        match self {
            SearchState::Idle => String::from_str("Type to search"),
            SearchState::Loading { .. } => String::from_str("Searching..."),
            SearchState::Empty { query } => {
                let mut s = String::from_str("No results for '");
                s.append(query.as_str());
                s.append("'");
                s
            },
            SearchState::Results { query, count } => {
                let mut s = u64_to_string(*count as u64);
                s.append(" result");
                if *count != 1 {
                    s.append("s");
                }
                s.append(" for '");
                s.append(query.as_str());
                s.append("'");
                proof {
                    reveal_strlit("");
                }
                s
            },
            SearchState::Error { message } => concat("Search error: ", message.as_str()),
        }
    }
}

/// How many results a search asks for.
pub const SEARCH_RESULT_LIMIT: usize = 10;

/// How long typing must pause, in milliseconds, before a search runs.
pub const SEARCH_DEBOUNCE_MS: u64 = 300;

/// The value of a search state.
pub enum SearchStateView {
    Idle,
    Loading(Seq<char>),
    Empty(Seq<char>),
    Results(Seq<char>, nat),
    Error(Seq<char>),
}

impl View for SearchState {
    type V = SearchStateView;

    open spec fn view(&self) -> SearchStateView {
        match self {
            SearchState::Idle => SearchStateView::Idle,
            SearchState::Loading { query } => SearchStateView::Loading(query@),
            SearchState::Empty { query } => SearchStateView::Empty(query@),
            SearchState::Results { query, count } => SearchStateView::Results(query@, *count as nat),
            SearchState::Error { message } => SearchStateView::Error(message@),
        }
    }
}

/// The search surface between events: its state, the generation of the
/// latest query, the result paths shown, the selected row, and whether the
/// next query change is the surface's own clearing and is to be ignored.
#[derive(Debug)]
pub struct SearchModel {
    pub state: SearchState,
    pub generation: u64,
    pub results: Vec<String>,
    pub selected: Option<usize>,
    pub suppress_change: bool,
}

/// The value of a search model.
pub struct SearchModelView {
    pub state: SearchStateView,
    pub generation: u64,
    pub results: Seq<Seq<char>>,
    pub selected: Option<nat>,
    pub suppress_change: bool,
}

/// The views of a list of strings.
pub open spec fn path_views(v: Seq<String>) -> Seq<Seq<char>> {
    v.map_values(|s: String| s@)
}

impl View for SearchModel {
    type V = SearchModelView;

    open spec fn view(&self) -> SearchModelView {
        SearchModelView {
            state: self.state@,
            generation: self.generation,
            results: path_views(self.results@),
            selected: match self.selected {
                Some(i) => Some(i as nat),
                None => None,
            },
            suppress_change: self.suppress_change,
        }
    }
}

/// What happens to the search surface.
#[derive(Debug)]
pub enum SearchEvent {
    /// The query text changed.
    QueryChanged(String),
    /// The pause after the query of this generation has passed.
    DebounceElapsed(u64),
    /// The daemon answered the search of this generation with result paths
    /// or an error message.
    Reply { generation: u64, result: Result<Vec<String>, String> },
    Down,
    Up,
    Return,
    Escape,
}

/// The value of a search event.
pub enum SearchEventView {
    QueryChanged(Seq<char>),
    DebounceElapsed(u64),
    Reply { generation: u64, result: Result<Seq<Seq<char>>, Seq<char>> },
    Down,
    Up,
    Return,
    Escape,
}

impl View for SearchEvent {
    type V = SearchEventView;

    open spec fn view(&self) -> SearchEventView {
        match self {
            SearchEvent::QueryChanged(q) => SearchEventView::QueryChanged(q@),
            SearchEvent::DebounceElapsed(g) => SearchEventView::DebounceElapsed(*g),
            SearchEvent::Reply { generation, result } => SearchEventView::Reply {
                generation: *generation,
                result: match result {
                    Ok(v) => Ok(path_views(v@)),
                    Err(e) => Err(e@),
                },
            },
            SearchEvent::Down => SearchEventView::Down,
            SearchEvent::Up => SearchEventView::Up,
            SearchEvent::Return => SearchEventView::Return,
            SearchEvent::Escape => SearchEventView::Escape,
        }
    }
}

/// What the caller is to do after a step.
#[derive(Debug, PartialEq, Eq)]
pub enum SearchAction {
    Nothing,
    /// Start the pause for the query of this generation.
    StartDebounce(u64),
    /// Ask the daemon for at most `limit` results for `query`.
    RunSearch { query: String, limit: usize },
    /// Open the note at this path.
    Open(String),
}

/// The value of a search action.
pub enum SearchActionView {
    Nothing,
    StartDebounce(u64),
    RunSearch { query: Seq<char>, limit: nat },
    Open(Seq<char>),
}

impl View for SearchAction {
    type V = SearchActionView;

    open spec fn view(&self) -> SearchActionView {
        match self {
            SearchAction::Nothing => SearchActionView::Nothing,
            SearchAction::StartDebounce(g) => SearchActionView::StartDebounce(*g),
            SearchAction::RunSearch { query, limit } => SearchActionView::RunSearch {
                query: query@,
                limit: *limit as nat,
            },
            SearchAction::Open(p) => SearchActionView::Open(p@),
        }
    }
}

/// Whether a query is too short to search for: under two bytes of UTF-8,
/// that is empty or a single character below U+0080 (UTF-8 writes those in
/// one byte and every other character in two or more).
pub open spec fn too_short(q: Seq<char>) -> bool {
    q.len() == 0 || (q.len() == 1 && (q[0] as u32) < 0x80)
}

/// A surface with no results and no selection, in state `st`.
pub open spec fn cleared(m: SearchModelView, st: SearchStateView, g: u64, suppress: bool) -> SearchModelView {
    SearchModelView { state: st, generation: g, results: Seq::empty(), selected: None, suppress_change: suppress }
}

/// The live search rules.
/// - A query change right after the surface cleared itself is ignored once.
/// - Any other query change starts a new generation: a query under two bytes
///   is idle and starts nothing; a longer one is loading and starts the pause.
/// - When the pause of the latest generation ends while its query is
///   loading, the search runs, for at most ten results.
/// - Only a reply to the latest generation, while its query is loading, is
///   applied: no paths is empty, some paths are the results with the first
///   selected, an error is shown as such.
/// - Down and Up move the selection within the results; Return opens the
///   selected result; Escape clears the surface, starts a new generation, and
///   ignores the query change its clearing causes.
pub open spec fn search_transition(m: SearchModelView, e: SearchEventView) -> (SearchModelView, SearchActionView) {
    match e {
        SearchEventView::QueryChanged(q) => if m.suppress_change {
            (SearchModelView { suppress_change: false, ..m }, SearchActionView::Nothing)
        } else if too_short(q) {
            (cleared(m, SearchStateView::Idle, (m.generation + 1) as u64, false), SearchActionView::Nothing)
        } else {
            (
                cleared(m, SearchStateView::Loading(q), (m.generation + 1) as u64, false),
                SearchActionView::StartDebounce((m.generation + 1) as u64),
            )
        },
        SearchEventView::DebounceElapsed(g) => match m.state {
            SearchStateView::Loading(q) => if g == m.generation {
                (m, SearchActionView::RunSearch { query: q, limit: 10 })
            } else {
                (m, SearchActionView::Nothing)
            },
            _ => (m, SearchActionView::Nothing),
        },
        SearchEventView::Reply { generation, result } => match m.state {
            SearchStateView::Loading(q) => if generation != m.generation {
                (m, SearchActionView::Nothing)
            } else {
                match result {
                    Ok(paths) => if paths.len() == 0 {
                        (cleared(m, SearchStateView::Empty(q), m.generation, m.suppress_change), SearchActionView::Nothing)
                    } else {
                        (
                            SearchModelView {
                                state: SearchStateView::Results(q, paths.len()),
                                results: paths,
                                selected: Some(0),
                                ..m
                            },
                            SearchActionView::Nothing,
                        )
                    },
                    Err(msg) => (
                        cleared(m, SearchStateView::Error(msg), m.generation, m.suppress_change),
                        SearchActionView::Nothing,
                    ),
                }
            },
            _ => (m, SearchActionView::Nothing),
        },
        SearchEventView::Down => {
            let next: nat = match m.selected {
                Some(i) => i + 1,
                None => 0,
            };
            if next < m.results.len() {
                (SearchModelView { selected: Some(next), ..m }, SearchActionView::Nothing)
            } else {
                (m, SearchActionView::Nothing)
            }
        },
        SearchEventView::Up => match m.selected {
            Some(i) => if i > 0 {
                (SearchModelView { selected: Some((i - 1) as nat), ..m }, SearchActionView::Nothing)
            } else {
                (m, SearchActionView::Nothing)
            },
            None => (m, SearchActionView::Nothing),
        },
        SearchEventView::Return => match m.selected {
            Some(i) => if i < m.results.len() {
                (m, SearchActionView::Open(m.results[i as int]))
            } else {
                (m, SearchActionView::Nothing)
            },
            None => (m, SearchActionView::Nothing),
        },
        SearchEventView::Escape => (
            cleared(m, SearchStateView::Idle, (m.generation + 1) as u64, true),
            SearchActionView::Nothing,
        ),
    }
}

/// A copy of a search state.
fn copy_state(s: &SearchState) -> (r: SearchState)
    ensures
        r@ == s@,
{
    match s {
        SearchState::Idle => SearchState::Idle,
        SearchState::Loading { query } => SearchState::Loading { query: query.clone() },
        SearchState::Empty { query } => SearchState::Empty { query: query.clone() },
        SearchState::Results { query, count } => SearchState::Results { query: query.clone(), count: *count },
        SearchState::Error { message } => SearchState::Error { message: message.clone() },
    }
}

/// A copy of a list of paths.
fn copy_paths(v: &Vec<String>) -> (r: Vec<String>)
    ensures
        path_views(r@) == path_views(v@),
{
    let mut r: Vec<String> = Vec::new();
    let mut i: usize = 0;
    while i < v.len()
        invariant
            i <= v.len(),
            path_views(r@) == path_views(v@.subrange(0, i as int)),
        decreases v.len() - i,
    {
        let ghost before = r@;
        let c = v[i].clone();
        r.push(c);
        assert(r@ == before.push(v@[i as int]));
        i = i + 1;
        assert(path_views(r@) =~= path_views(v@.subrange(0, i as int))) by {
            assert(path_views(before) =~= path_views(v@.subrange(0, i - 1)));
            assert forall|k: int| 0 <= k < i implies path_views(r@)[k] == path_views(v@.subrange(0, i as int))[k] by {
                if k < i - 1 {
                    assert(path_views(before)[k] == path_views(v@.subrange(0, i - 1))[k]);
                }
            }
        }
    }
    assert(v@.subrange(0, v.len() as int) =~= v@);
    r
}

/// A copy of a search model.
fn copy_model(m: &SearchModel) -> (r: SearchModel)
    ensures
        r@ == m@,
{
    SearchModel {
        state: copy_state(&m.state),
        generation: m.generation,
        results: copy_paths(&m.results),
        selected: m.selected,
        suppress_change: m.suppress_change,
    }
}

impl SearchModel {
    /// The surface before any event: idle, nothing shown.
    pub fn new() -> (r: Self)
        ensures
            r@.state == SearchStateView::Idle,
            r@.generation == 0,
            r@.results.len() == 0,
            r@.selected is None,
            !r@.suppress_change,
    {
        let r = SearchModel {
            state: SearchState::Idle,
            generation: 0,
            results: Vec::new(),
            selected: None,
            suppress_change: false,
        };
        assert(path_views(r.results@) =~= Seq::empty());
        r
    }
}

/// One step of the live search: the next surface and what the caller is to
/// do. The generation counts query changes and clearings.
pub fn search_step(m: &SearchModel, e: SearchEvent) -> (r: (SearchModel, SearchAction))
    requires
        m.generation < u64::MAX,
    ensures
        (r.0@, r.1@) == search_transition(m@, e@),
{
    let next_generation = m.generation + 1;
    match e {
        SearchEvent::QueryChanged(q) => {
            if m.suppress_change {
                let mut n = copy_model(m);
                n.suppress_change = false;
                return (n, SearchAction::Nothing);
            }
            let empty: Vec<String> = Vec::new();
            assert(path_views(empty@) =~= Seq::empty());
            let cs = chars_of(q.as_str());
            let short = cs.len() == 0 || (cs.len() == 1 && (cs[0] as u32) < 0x80);
            if short {
                (
                    SearchModel {
                        state: SearchState::Idle,
                        generation: next_generation,
                        results: empty,
                        selected: None,
                        suppress_change: false,
                    },
                    SearchAction::Nothing,
                )
            } else {
                (
                    SearchModel {
                        state: SearchState::Loading { query: q },
                        generation: next_generation,
                        results: empty,
                        selected: None,
                        suppress_change: false,
                    },
                    SearchAction::StartDebounce(next_generation),
                )
            }
        },
        SearchEvent::DebounceElapsed(g) => {
            let n = copy_model(m);
            match &m.state {
                SearchState::Loading { query } => if g == m.generation {
                    (n, SearchAction::RunSearch { query: query.clone(), limit: SEARCH_RESULT_LIMIT })
                } else {
                    (n, SearchAction::Nothing)
                },
                _ => (n, SearchAction::Nothing),
            }
        },
        SearchEvent::Reply { generation, result } => {
            match &m.state {
                SearchState::Loading { query } => {
                    if generation != m.generation {
                        return (copy_model(m), SearchAction::Nothing);
                    }
                    let empty: Vec<String> = Vec::new();
                    assert(path_views(empty@) =~= Seq::empty());
                    match result {
                        Ok(paths) => if paths.len() == 0 {
                            (
                                SearchModel {
                                    state: SearchState::Empty { query: query.clone() },
                                    generation: m.generation,
                                    results: empty,
                                    selected: None,
                                    suppress_change: m.suppress_change,
                                },
                                SearchAction::Nothing,
                            )
                        } else {
                            let count = paths.len();
                            (
                                SearchModel {
                                    state: SearchState::Results { query: query.clone(), count },
                                    generation: m.generation,
                                    results: paths,
                                    selected: Some(0),
                                    suppress_change: m.suppress_change,
                                },
                                SearchAction::Nothing,
                            )
                        },
                        Err(msg) => (
                            SearchModel {
                                state: SearchState::Error { message: msg },
                                generation: m.generation,
                                results: empty,
                                selected: None,
                                suppress_change: m.suppress_change,
                            },
                            SearchAction::Nothing,
                        ),
                    }
                },
                _ => (copy_model(m), SearchAction::Nothing),
            }
        },
        SearchEvent::Down => {
            let mut n = copy_model(m);
            let next: usize = match m.selected {
                Some(i) => if i < m.results.len() {
                    i + 1
                } else {
                    m.results.len()
                },
                None => 0,
            };
            if next < m.results.len() {
                n.selected = Some(next);
            }
            (n, SearchAction::Nothing)
        },
        SearchEvent::Up => {
            let mut n = copy_model(m);
            match m.selected {
                Some(i) => if i > 0 {
                    n.selected = Some(i - 1);
                },
                None => {},
            }
            (n, SearchAction::Nothing)
        },
        SearchEvent::Return => {
            let n = copy_model(m);
            match m.selected {
                Some(i) => if i < m.results.len() {
                    (n, SearchAction::Open(m.results[i].clone()))
                } else {
                    (n, SearchAction::Nothing)
                },
                None => (n, SearchAction::Nothing),
            }
        },
        SearchEvent::Escape => {
            let empty: Vec<String> = Vec::new();
            assert(path_views(empty@) =~= Seq::empty());
            (
                SearchModel {
                    state: SearchState::Idle,
                    generation: next_generation,
                    results: empty,
                    selected: None,
                    suppress_change: true,
                },
                SearchAction::Nothing,
            )
        },
    }
}

} // verus!
