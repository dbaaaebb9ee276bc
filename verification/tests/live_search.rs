use knotty::ui::search_view::{search_step, SearchAction, SearchEvent, SearchModel, SearchState};

fn step(m: &SearchModel, e: SearchEvent) -> (SearchModel, SearchAction) {
    search_step(m, e)
}

#[test]
fn short_queries_stay_idle_and_start_nothing() {
    let m = SearchModel::new();
    let (m, a) = step(&m, SearchEvent::QueryChanged("a".to_string()));
    assert_eq!(a, SearchAction::Nothing);
    assert_eq!(m.state, SearchState::Idle);
    assert_eq!(m.generation, 1);
    let (m, a) = step(&m, SearchEvent::QueryChanged(String::new()));
    assert_eq!(a, SearchAction::Nothing);
    assert_eq!(m.state, SearchState::Idle);
    // One character of two UTF-8 bytes is long enough.
    let (m, a) = step(&m, SearchEvent::QueryChanged("é".to_string()));
    assert_eq!(a, SearchAction::StartDebounce(3));
    assert_eq!(m.state, SearchState::Loading { query: "é".to_string() });
}

#[test]
fn only_the_latest_query_is_searched_and_applied() {
    let m = SearchModel::new();
    let (m, a) = step(&m, SearchEvent::QueryChanged("gr".to_string()));
    assert_eq!(a, SearchAction::StartDebounce(1));
    let (m, a) = step(&m, SearchEvent::QueryChanged("graph".to_string()));
    assert_eq!(a, SearchAction::StartDebounce(2));
    let (m, a) = step(&m, SearchEvent::DebounceElapsed(1));
    assert_eq!(a, SearchAction::Nothing);
    let (m, a) = step(&m, SearchEvent::DebounceElapsed(2));
    assert_eq!(a, SearchAction::RunSearch { query: "graph".to_string(), limit: 10 });
    let (m, _) = step(&m, SearchEvent::Reply { generation: 1, result: Ok(vec!["old.md".to_string()]) });
    assert_eq!(m.state, SearchState::Loading { query: "graph".to_string() });
    let (m, _) = step(
        &m,
        SearchEvent::Reply { generation: 2, result: Ok(vec!["a.md".to_string(), "b.md".to_string()]) },
    );
    assert_eq!(m.state, SearchState::Results { query: "graph".to_string(), count: 2 });
    assert_eq!(m.results, vec!["a.md".to_string(), "b.md".to_string()]);
    assert_eq!(m.selected, Some(0));
}

#[test]
fn replies_become_empty_or_error() {
    let m = SearchModel::new();
    let (m, _) = step(&m, SearchEvent::QueryChanged("zz".to_string()));
    let (e, _) = step(&m, SearchEvent::Reply { generation: 1, result: Ok(Vec::new()) });
    assert_eq!(e.state, SearchState::Empty { query: "zz".to_string() });
    assert_eq!(e.selected, None);
    let (f, _) = step(&m, SearchEvent::Reply { generation: 1, result: Err("offline".to_string()) });
    assert_eq!(f.state, SearchState::Error { message: "offline".to_string() });
}

#[test]
fn keys_move_open_and_clear() {
    let m = SearchModel::new();
    let (m, _) = step(&m, SearchEvent::QueryChanged("no".to_string()));
    let (m, _) = step(
        &m,
        SearchEvent::Reply { generation: 1, result: Ok(vec!["a.md".to_string(), "b.md".to_string()]) },
    );
    let (m, _) = step(&m, SearchEvent::Up);
    assert_eq!(m.selected, Some(0));
    let (m, _) = step(&m, SearchEvent::Down);
    assert_eq!(m.selected, Some(1));
    let (m, _) = step(&m, SearchEvent::Down);
    assert_eq!(m.selected, Some(1));
    let (m, a) = step(&m, SearchEvent::Return);
    assert_eq!(a, SearchAction::Open("b.md".to_string()));
    let (m, a) = step(&m, SearchEvent::Escape);
    assert_eq!(a, SearchAction::Nothing);
    assert_eq!(m.state, SearchState::Idle);
    assert!(m.results.is_empty());
    assert_eq!(m.generation, 2);
    // The change the clearing causes is ignored once.
    let (m, a) = step(&m, SearchEvent::QueryChanged(String::new()));
    assert_eq!(a, SearchAction::Nothing);
    assert!(!m.suppress_change);
    assert_eq!(m.generation, 2);
    let (_, a) = step(&m, SearchEvent::Return);
    assert_eq!(a, SearchAction::Nothing);
}
