use knotty::ui::explorer::{
    cursor_guard_request, explorer_cursor_step, normalize_note_name, CursorOutcome, CursorRestore, ExplorerRowData, ExplorerRowKind,
    ExplorerSelection, NoteSwitchDecision,
};

fn note_row(path: &str) -> ExplorerRowData {
    ExplorerRowData {
        icon_name: "text-x-markdown".to_string(),
        display_name: path.to_string(),
        path: path.to_string(),
        badge: String::new(),
        kind: ExplorerRowKind::Note,
    }
}

fn folder_row(path: &str) -> ExplorerRowData {
    ExplorerRowData {
        icon_name: "folder".to_string(),
        display_name: path.to_string(),
        path: path.to_string(),
        badge: String::new(),
        kind: ExplorerRowKind::Folder { expanded: false },
    }
}

fn note(path: &str) -> ExplorerSelection {
    ExplorerSelection::Note { path: path.to_string() }
}

#[test]
fn empty_cursor_clears_selection_and_flag() {
    let r = explorer_cursor_step(Some(note("a.md")), None, true, None);
    assert_eq!(
        r,
        CursorOutcome {
            announced: None,
            open_note: None,
            status: None,
            restore: CursorRestore::Keep,
            selected: None,
            suppress_activation: false,
        }
    );
}

#[test]
fn guard_is_asked_only_for_unsuppressed_note_rows() {
    assert_eq!(cursor_guard_request(&Some(note_row("a.md")), false), Some("a.md".to_string()));
    assert_eq!(cursor_guard_request(&Some(note_row("a.md")), true), None);
    assert_eq!(cursor_guard_request(&Some(folder_row("dir")), false), None);
    assert_eq!(cursor_guard_request(&None, false), None);
}

#[test]
fn allowed_note_is_opened() {
    let r = explorer_cursor_step(None, Some(note_row("b.md")), false, Some(NoteSwitchDecision::Allow));
    assert_eq!(r.announced, Some(note("b.md")));
    assert_eq!(r.open_note, Some("b.md".to_string()));
    assert_eq!(r.selected, Some(note("b.md")));
    let r = explorer_cursor_step(None, Some(note_row("b.md")), false, None);
    assert_eq!(r.open_note, Some("b.md".to_string()));
}

#[test]
fn suppressed_or_folder_rows_only_select() {
    let r = explorer_cursor_step(None, Some(note_row("b.md")), true, Some(NoteSwitchDecision::Deny));
    assert_eq!(r.open_note, None);
    assert_eq!(r.status, None);
    assert!(!r.suppress_activation);
    let r = explorer_cursor_step(None, Some(folder_row("dir")), false, None);
    assert_eq!(r.selected, Some(ExplorerSelection::Folder { path: "dir".to_string() }));
    assert_eq!(r.open_note, None);
}

#[test]
fn blocked_switch_reports_and_restores() {
    let r = explorer_cursor_step(Some(note("a.md")), Some(note_row("b.md")), false, Some(NoteSwitchDecision::Deny));
    assert_eq!(r.open_note, None);
    assert_eq!(r.status, Some("Switching notes is blocked by unsaved note changes.".to_string()));
    assert_eq!(r.restore, CursorRestore::SelectPrevious(note("a.md")));
    let r = explorer_cursor_step(None, Some(note_row("b.md")), false, Some(NoteSwitchDecision::SaveThenAllow));
    assert_eq!(
        r.status,
        Some("Switching notes requires save-then-switch, which is not implemented yet.".to_string())
    );
    assert_eq!(r.restore, CursorRestore::Clear);
    assert_eq!(r.selected, None);
    assert!(r.suppress_activation);
}

#[test]
fn note_names_get_md_only_without_an_extension() {
    let n = |s: &str| normalize_note_name(s).unwrap();
    assert_eq!(n("plan"), "plan.md");
    assert_eq!(n("plan.txt"), "plan.txt");
    assert_eq!(n("plan."), "plan.");
    assert_eq!(n(".hidden"), ".hidden.md");
    assert_eq!(n("..hidden"), "..hidden");
    assert_eq!(n("dir.d/"), "dir.d/");
    assert_eq!(n("dir.d/."), "dir.d/.");
    assert_eq!(n("dir.d/.."), "dir.d/...md");
    assert_eq!(n("a.b/c"), "a.b/c.md");
    assert_eq!(n("/"), "/.md");
    assert!(normalize_note_name("   ").is_err());
}
