use knotty::client::{ExplorerFolderNode, ExplorerNoteNode, GraphEdge, MaintenanceResult, VaultPluginInfo};
use knotty::config::knotty_config::{AutomationConfig, ColorSchemePreference, KnottyConfig};
use knotty::ui::context_panel::{context_panel_page, selected_display_name};
use knotty::ui::explorer::{
    can_rename_selection, directory_creation_target, fallback_selection_after_removal,
    folder_removal_follow_up, folder_toggle_request, guard_block_message, join_container_path,
    mutation_guard_allows, note_creation_target, note_selection_request, note_switch_decision,
    parent_directory, rename_target, should_emit_note_selection, ExplorerRowData, ExplorerRowKind,
    ExplorerSelection, NoteSwitchDecision, RefreshFollowUp,
};
use knotty::ui::graph_view::{
    graph_context_details, graph_status_text, label_for_path, ready_load_state, GraphLoadState, GraphScope,
};
use knotty::ui::search_view::SearchState;
use knotty::ui::settings_view::{
    color_scheme_index, format_maintenance_result, gather_config_from_widgets, plugin_rows, yes_no,
    SettingsSection,
};
use knotty::ui::tool_rail::ToolMode;

fn pdf_note() -> ExplorerNoteNode {
    ExplorerNoteNode {
        path: "notes/guide.pdf".to_string(),
        title: "Guide".to_string(),
        display_title: "Guide".to_string(),
        modified_at: 0,
        word_count: 42,
        type_badge: Some("pdf".to_string()),
        is_dimmed: false,
    }
}

fn folder(expanded: bool) -> ExplorerFolderNode {
    ExplorerFolderNode {
        path: "notes/projects".to_string(),
        name: "Projects".to_string(),
        expanded,
        folders: Vec::new(),
        notes: Vec::new(),
    }
}

#[test]
fn folder_rows_keep_name_path_and_expanded_state() {
    let row = ExplorerRowData::from_folder(&folder(true));
    assert_eq!(
        row,
        ExplorerRowData {
            icon_name: "folder".to_string(),
            display_name: "Projects".to_string(),
            path: "notes/projects".to_string(),
            badge: String::new(),
            kind: ExplorerRowKind::Folder { expanded: true },
        }
    );
}

#[test]
fn note_rows_render_badges_and_icons_deterministically() {
    let row = ExplorerRowData::from_note(&pdf_note());
    assert_eq!(row.icon_name, "application-pdf");
    assert_eq!(row.display_name, "Guide  [PDF]");
    assert_eq!(row.badge, "PDF");
    assert_eq!(row.kind, ExplorerRowKind::Note);
    let mut plain = pdf_note();
    plain.type_badge = None;
    let row = ExplorerRowData::from_note(&plain);
    assert_eq!(row.icon_name, "text-x-markdown");
    assert_eq!(row.display_name, "Guide");
    let mut csv = pdf_note();
    csv.type_badge = Some("Csv".to_string());
    assert_eq!(ExplorerRowData::from_note(&csv).display_name, "Guide  [CSV]");
}

#[test]
fn folder_toggle_requests_only_emit_for_folder_rows() {
    let folder_row = ExplorerRowData::from_folder(&folder(false));
    let note_row = ExplorerRowData::from_note(&pdf_note());
    assert_eq!(folder_toggle_request(&folder_row, true), Some(("notes/projects".to_string(), true)));
    assert_eq!(folder_toggle_request(&note_row, true), None);
}

#[test]
fn note_selection_requests_only_emit_for_note_rows() {
    let folder_row = ExplorerRowData::from_folder(&folder(true));
    let note_row = ExplorerRowData::from_note(&pdf_note());
    assert_eq!(note_selection_request(&folder_row), None);
    assert_eq!(note_selection_request(&note_row), Some("notes/guide.pdf".to_string()));
    assert_eq!(note_row.selection(), ExplorerSelection::Note { path: "notes/guide.pdf".to_string() });
}

#[test]
fn dispatch_note_selection_request_respects_guard_decision() {
    let decision = note_switch_decision(Some(NoteSwitchDecision::Deny));
    assert_eq!(decision, NoteSwitchDecision::Deny);
    assert!(!should_emit_note_selection(decision));
    assert!(should_emit_note_selection(note_switch_decision(None)));
}

#[test]
fn dispatch_note_selection_request_does_not_emit_for_save_then_allow() {
    let decision = note_switch_decision(Some(NoteSwitchDecision::SaveThenAllow));
    assert_eq!(decision, NoteSwitchDecision::SaveThenAllow);
    assert!(!should_emit_note_selection(decision));
}

#[test]
fn create_note_target_uses_selected_folder_or_note_parent() {
    let folder_selection = ExplorerSelection::Folder { path: "notes/projects".to_string() };
    let note_selection = ExplorerSelection::Note { path: "notes/projects/guide.md".to_string() };
    assert_eq!(note_creation_target(Some(&folder_selection), "Draft").unwrap(), "notes/projects/Draft.md");
    assert_eq!(note_creation_target(Some(&note_selection), "Draft.md").unwrap(), "notes/projects/Draft.md");
    assert_eq!(note_creation_target(None, "Inbox").unwrap(), "Inbox.md");
    assert_eq!(note_creation_target(None, "   "), Err("Name cannot be empty.".to_string()));
}

#[test]
fn create_directory_target_uses_selected_container() {
    let note_selection = ExplorerSelection::Note { path: "notes/projects/guide.md".to_string() };
    assert_eq!(directory_creation_target(Some(&note_selection), "Archive").unwrap(), "notes/projects/Archive");
    assert_eq!(directory_creation_target(None, "Projects").unwrap(), "Projects");
}

#[test]
fn rename_target_keeps_existing_parent_directory() {
    let note_selection = ExplorerSelection::Note { path: "notes/projects/guide.md".to_string() };
    let folder_selection = ExplorerSelection::Folder { path: "notes/projects".to_string() };
    assert_eq!(rename_target(&note_selection, "updated").unwrap(), "notes/projects/updated.md");
    assert_eq!(rename_target(&folder_selection, "archive").unwrap(), "notes/archive");
}

#[test]
fn rename_target_accepts_full_target_paths_for_move_flows() {
    let note_selection = ExplorerSelection::Note { path: "notes/projects/guide.md".to_string() };
    let folder_selection = ExplorerSelection::Folder { path: "notes/projects".to_string() };
    assert_eq!(rename_target(&note_selection, "archive/updated").unwrap(), "archive/updated.md");
    assert_eq!(rename_target(&folder_selection, "archive/projects").unwrap(), "archive/projects");
}

#[test]
fn root_folder_cannot_be_renamed() {
    let root_selection = ExplorerSelection::Folder { path: String::new() };
    assert!(!can_rename_selection(&root_selection));
    assert!(can_rename_selection(&ExplorerSelection::Note { path: "a.md".to_string() }));
}

#[test]
fn guard_block_message_covers_deny_and_save_then_allow() {
    assert_eq!(
        guard_block_message(NoteSwitchDecision::Deny, "Deleting"),
        Some("Deleting is blocked by unsaved note changes.".to_string())
    );
    assert_eq!(
        guard_block_message(NoteSwitchDecision::SaveThenAllow, "Deleting"),
        Some("Deleting requires save-then-switch, which is not implemented yet.".to_string())
    );
    assert_eq!(guard_block_message(NoteSwitchDecision::Allow, "Deleting"), None);
    assert_eq!(mutation_guard_allows(NoteSwitchDecision::Allow, "Renaming"), Ok(()));
    assert_eq!(
        mutation_guard_allows(NoteSwitchDecision::Deny, "Renaming"),
        Err("Renaming is blocked by unsaved note changes.".to_string())
    );
}

#[test]
fn fallback_selection_after_note_removal_prefers_parent_folder() {
    let note_selection = ExplorerSelection::Note { path: "notes/projects/guide.md".to_string() };
    assert_eq!(
        fallback_selection_after_removal(&note_selection),
        Some(ExplorerSelection::Folder { path: "notes/projects".to_string() })
    );
    assert_eq!(fallback_selection_after_removal(&ExplorerSelection::Note { path: "guide.md".to_string() }), None);
}

#[test]
fn folder_removal_focuses_parent_and_clears_active_note() {
    assert_eq!(
        folder_removal_follow_up("notes/projects"),
        RefreshFollowUp::FocusAndClear(ExplorerSelection::Folder { path: "notes".to_string() })
    );
    assert_eq!(folder_removal_follow_up("projects"), RefreshFollowUp::ClearSelection);
}

#[test]
fn paths_split_and_join_on_slashes() {
    assert_eq!(parent_directory("a/b/c.md"), "a/b");
    assert_eq!(parent_directory("c.md"), "");
    assert_eq!(join_container_path("", "x"), "x");
    assert_eq!(join_container_path("a", "x"), "a/x");
}

#[test]
fn settings_sections_are_stable_and_include_controls() {
    assert_eq!(
        SettingsSection::all(),
        vec![
            SettingsSection::General,
            SettingsSection::Appearance,
            SettingsSection::Controls,
            SettingsSection::Vault,
            SettingsSection::Plugins,
            SettingsSection::Maintenance,
        ]
    );
    assert_eq!(SettingsSection::Controls.title(), "Controls");
    assert_eq!(SettingsSection::Maintenance.stack_name(), "maintenance");
}

#[test]
fn maintenance_success_prefers_explicit_message_then_count() {
    assert_eq!(format_maintenance_result(&MaintenanceResult::Message("Reindex complete".to_string())), "Reindex complete");
    assert_eq!(format_maintenance_result(&MaintenanceResult::Count(42)), "Reindexed 42 items");
    assert_eq!(
        format_maintenance_result(&MaintenanceResult::Object { message: None, count: None, reindexed: Some(-3) }),
        "Reindexed -3 items"
    );
    assert_eq!(
        format_maintenance_result(&MaintenanceResult::Object { message: None, count: None, reindexed: None }),
        "Maintenance complete"
    );
}

#[test]
fn gather_config_from_widgets_preserves_existing_automation_settings() {
    let existing = KnottyConfig { automation: AutomationConfig { enabled: true }, ..KnottyConfig::default() };
    let config = gather_config_from_widgets(&existing, 2, 320, 300);
    assert!(config.automation.enabled);
    assert_eq!(config.appearance.color_scheme, ColorSchemePreference::Dark);
    assert_eq!(config.appearance.context_panel_width, 320);
    assert_eq!(config.appearance.inspector_width, 300);
    assert_eq!(color_scheme_index(ColorSchemePreference::Light), 1);
    assert_eq!(gather_config_from_widgets(&existing, 7, 1, 1).appearance.color_scheme, ColorSchemePreference::System);
}

#[test]
fn plugin_rows_describe_configured_and_effective_state() {
    let rows = plugin_rows(&vec![
        VaultPluginInfo { id: "daily".to_string(), title: String::new(), enabled: true, effective_enabled: Some(false) },
        VaultPluginInfo { id: "x".to_string(), title: "X".to_string(), enabled: false, effective_enabled: None },
    ]);
    assert_eq!(
        rows,
        vec![
            ("daily".to_string(), "configured: yes, effective: no".to_string()),
            ("X".to_string(), "enabled: no".to_string()),
        ]
    );
    assert_eq!(plugin_rows(&Vec::new()).len(), 1);
    assert_eq!(yes_no(true), "yes");
}

#[test]
fn search_state_exposes_required_status_messages() {
    assert_eq!(SearchState::Idle.status_text(), "Type to search");
    assert_eq!(SearchState::Loading { query: "graph".to_string() }.status_text(), "Searching...");
    assert_eq!(SearchState::Empty { query: "graph".to_string() }.status_text(), "No results for 'graph'");
    assert_eq!(SearchState::Results { query: "graph".to_string(), count: 2 }.status_text(), "2 results for 'graph'");
    assert_eq!(SearchState::Results { query: "g".to_string(), count: 1 }.status_text(), "1 result for 'g'");
    assert_eq!(SearchState::Error { message: "offline".to_string() }.status_text(), "Search error: offline");
}

#[test]
fn graph_context_details_separate_neighbors_and_backlinks() {
    let labels = vec![
        ("notes/one.md".to_string(), "one".to_string()),
        ("notes/two.md".to_string(), "two".to_string()),
        ("notes/three.md".to_string(), "three".to_string()),
    ];
    let edges = vec![
        GraphEdge { source: "notes/one.md".to_string(), target: "notes/two.md".to_string() },
        GraphEdge { source: "notes/three.md".to_string(), target: "notes/one.md".to_string() },
    ];
    let details = graph_context_details(Some("notes/one.md"), &labels, &edges);
    assert_eq!(details.selected_label.as_deref(), Some("one"));
    assert_eq!(details.neighbors, vec!["notes/two.md".to_string()]);
    assert_eq!(details.backlinks, vec!["notes/three.md".to_string()]);
}

#[test]
fn graph_details_sort_dedupe_and_fall_back_to_path_labels() {
    let edges = vec![
        GraphEdge { source: "a.md".to_string(), target: "z.md".to_string() },
        GraphEdge { source: "a.md".to_string(), target: "b.md".to_string() },
        GraphEdge { source: "a.md".to_string(), target: "z.md".to_string() },
    ];
    let details = graph_context_details(Some("dir/a.md"), &Vec::new(), &edges);
    assert_eq!(details.selected_label.as_deref(), Some("a"));
    assert!(details.neighbors.is_empty());
    let details = graph_context_details(Some("a.md"), &Vec::new(), &edges);
    assert_eq!(details.neighbors, vec!["b.md".to_string(), "z.md".to_string()]);
    let none = graph_context_details(None, &Vec::new(), &edges);
    assert!(none.selected_path.is_none() && none.neighbors.is_empty());
    assert_eq!(label_for_path("x/y.md.md"), "y");
    assert_eq!(ready_load_state(0), GraphLoadState::Empty);
    assert_eq!(graph_status_text(GraphScope::Neighborhood, &GraphLoadState::Empty), "No neighboring notes found");
    assert_eq!(graph_status_text(GraphScope::Vault, &GraphLoadState::Error("x".to_string())), "Graph error: x");
}

#[test]
fn context_panel_pages_and_selection_names() {
    assert_eq!(context_panel_page(ToolMode::Graph), ("Graph", "graph"));
    assert_eq!(selected_display_name(&ExplorerSelection::Folder { path: String::new() }), "root");
    assert_eq!(selected_display_name(&ExplorerSelection::Note { path: "a/b.md".to_string() }), "b.md");
}
