use knotty::client::{NoteData, NoteType};
use knotty::ui::editor::EditorMode;
use knotty::ui::explorer::NoteSwitchDecision;
use knotty::ui::graph_view::{graph_context_details, GraphLoadState, GraphScope};
use knotty::client::GraphEdge;
use knotty::ui::request_state::RequestState;
use knotty::ui::settings_view::SettingsSection;
use knotty::ui::shell_state::{ContentMode, ContextMode, InspectorMode, ShellState};
use knotty::ui::tool_rail::ToolMode;
use knotty::ui::window::{
    automation_gate_state, automation_result, begin_note_load, build_ui_automation_snapshot,
    cancel_note_load, complete_note_load, content_child_name_for_shell, content_stack_child_names,
    describe_ui_automation, determine_startup_state, dirty_note_switch_response, editor_mode_name,
    focus_search_shell_state, graph_panel_state, graph_scope_name, neighborhood_without_selection_message,
    next_note_load_generation, note_window_title, parse_editor_mode, parse_graph_scope, plan_graph_request, GraphRequest,
    parse_settings_section, parse_tool_mode, plan_ui_automation_action, automation_outcome, resolve_note_switch_decision,
    settings_section_name, should_route_loaded_note_to_notes, startup_action_label,
    startup_action_specs, startup_content_child_name, startup_detail_text, startup_header_text,
    startup_shell_chrome_visible, startup_state_name, step_tool, tool_mode_name,
    ui_automation_action_catalog, ui_automation_action_id, ui_automation_result_codes,
    AutomationSnapshotInput, AutomationStep, DirtyNoteSwitchResponse, NoteLoadOrigin, NoteLoadState,
    StartupAction, StartupState, UI_AUTOMATION_ACTION_CATALOG_VERSION, UI_AUTOMATION_PROTOCOL_VERSION,
    UI_AUTOMATION_SNAPSHOT_SCHEMA_VERSION,
};
use knotty::ui::automation_state::{
    ArgumentSchema, UiAutomationAction, UiAutomationActionResult, UiAutomationDescription,
};

fn sample_note() -> NoteData {
    NoteData {
        id: "note-1".to_string(),
        path: "notes/example.md".to_string(),
        title: "Example".to_string(),
        content: "# Example".to_string(),
        created_at: 1,
        modified_at: 2,
        word_count: 2,
        headings: Vec::new(),
        backlinks: Vec::new(),
        note_type: Some(NoteType::Markdown),
        available_modes: None,
        metadata: None,
        embed: None,
        media: None,
        type_badge: Some("MD".to_string()),
        is_dimmed: false,
    }
}

fn property<'a>(props: &'a [(String, String)], key: &str) -> Option<&'a str> {
    props.iter().find(|(k, _)| k == key).map(|(_, v)| v.as_str())
}

#[test]
fn default_notes_mode_uses_welcome_until_note_selected() {
    let mut shell = ShellState::default();
    assert_eq!(shell.tool_mode(), ToolMode::Notes);
    assert_eq!(shell.context_mode(), ContextMode::Notes);
    assert_eq!(shell.content_mode(), ContentMode::Welcome);
    assert_eq!(shell.inspector_mode(), InspectorMode::Details);
    shell.set_note_selected(true);
    assert_eq!(shell.content_mode(), ContentMode::Note);
}

#[test]
fn selecting_graph_tool_switches_context_panel_to_graph() {
    let mut shell = ShellState::default();
    shell.select_tool(ToolMode::Graph);
    assert_eq!(shell.tool_mode(), ToolMode::Graph);
    assert_eq!(shell.context_mode(), ContextMode::Graph);
    assert_eq!(shell.content_mode(), ContentMode::Graph);
    assert_eq!(shell.inspector_mode(), InspectorMode::Details);
}

#[test]
fn selecting_search_tool_hides_inspector_and_shows_search_content() {
    let mut shell = ShellState::default();
    shell.set_note_selected(true);
    shell.select_tool(ToolMode::Search);
    assert_eq!(shell.context_mode(), ContextMode::Search);
    assert_eq!(shell.content_mode(), ContentMode::Search);
    assert_eq!(shell.inspector_mode(), InspectorMode::Hidden);
}

#[test]
fn selecting_settings_tool_routes_all_surfaces_to_settings() {
    let mut shell = ShellState::default();
    shell.select_tool(ToolMode::Settings);
    assert_eq!(shell.tool_mode(), ToolMode::Settings);
    assert_eq!(shell.context_mode(), ContextMode::Settings);
    assert_eq!(shell.content_mode(), ContentMode::Settings);
    assert_eq!(shell.inspector_mode(), InspectorMode::Settings);
}

#[test]
fn tool_switch_and_selection_do_not_interfere() {
    let mut a = ShellState::default();
    a.select_tool(ToolMode::Graph);
    a.set_note_selected(true);
    let mut b = ShellState::default();
    b.set_note_selected(true);
    b.select_tool(ToolMode::Graph);
    assert_eq!(a, b);
    b.select_tool(ToolMode::Notes);
    assert_eq!(b.content_mode(), ContentMode::Note);
}

#[test]
fn startup_state_reports_daemon_unavailable_when_client_cannot_connect() {
    let state = determine_startup_state(Err("IO error: No such file or directory".to_string()), None);
    assert!(matches!(state, StartupState::DaemonUnavailable { .. }));
    assert_eq!(startup_content_child_name(&state), "daemon-unavailable");
    assert!(!startup_shell_chrome_visible(&state));
}

#[test]
fn startup_state_reports_no_vault_when_daemon_has_no_active_vault() {
    let state = StartupState::NoVault;
    assert_eq!(startup_header_text(&state), "No vault open");
    assert_eq!(startup_content_child_name(&state), "no-vault");
    assert!(!startup_shell_chrome_visible(&state));
    assert_eq!(determine_startup_state(Ok(false), None), StartupState::NoVault);
}

#[test]
fn startup_state_reports_vault_open_when_vault_info_is_available() {
    let state = StartupState::VaultOpen { name: Some("Example".to_string()) };
    assert_eq!(startup_header_text(&state), "Connected to vault: Example");
    assert_eq!(startup_content_child_name(&state), "empty");
    assert!(startup_shell_chrome_visible(&state));
    assert_eq!(determine_startup_state(Ok(true), Some(Ok("Example".to_string()))), state);
    assert_eq!(
        determine_startup_state(Ok(true), Some(Err("broken".to_string()))),
        StartupState::VaultOpen { name: None }
    );
}

#[test]
fn shell_routing_maps_search_to_search_content() {
    let mut shell_state = ShellState::default();
    shell_state.select_tool(ToolMode::Search);
    assert_eq!(content_child_name_for_shell(&shell_state), "search");
    assert_eq!(shell_state.inspector_mode(), InspectorMode::Hidden);
}

#[test]
fn search_shell_content_is_registered_in_window_stack() {
    let mut shell_state = ShellState::default();
    shell_state.select_tool(ToolMode::Search);
    assert!(content_stack_child_names().contains(&content_child_name_for_shell(&shell_state)));
}

#[test]
fn startup_states_expose_required_actions() {
    let daemon_actions =
        startup_action_specs(&StartupState::DaemonUnavailable { message: "offline".to_string() });
    let no_vault_actions = startup_action_specs(&StartupState::NoVault);
    assert_eq!(daemon_actions, vec![StartupAction::RetryDaemon]);
    assert_eq!(no_vault_actions, vec![StartupAction::OpenVault, StartupAction::CreateVault]);
    assert_eq!(startup_action_label(StartupAction::RetryDaemon), "Retry after starting knotd");
    assert_eq!(startup_action_label(StartupAction::CreateVault), "Create vault");
}

#[test]
fn startup_navigation_only_unlocked_when_vault_is_open() {
    assert!(!startup_shell_chrome_visible(&StartupState::DaemonUnavailable {
        message: "offline".to_string()
    }));
    assert!(!startup_shell_chrome_visible(&StartupState::NoVault));
    assert!(startup_shell_chrome_visible(&StartupState::VaultOpen {
        name: Some("Example".to_string())
    }));
}

#[test]
fn startup_detail_text_tracks_daemon_error_message() {
    let state = StartupState::DaemonUnavailable { message: "socket timeout".to_string() };
    assert_eq!(startup_detail_text(&state), "socket timeout");
    assert_eq!(
        startup_detail_text(&StartupState::NoVault),
        "Open or create a vault to start browsing notes."
    );
}

#[test]
fn degraded_vault_info_failure_keeps_shell_chrome_available() {
    let state = StartupState::VaultOpen { name: None };
    assert_eq!(startup_header_text(&state), "Connected to vault");
    assert_eq!(startup_content_child_name(&state), "empty");
    assert!(startup_shell_chrome_visible(&state));
    assert!(startup_action_specs(&state).is_empty());
}

#[test]
fn note_load_uses_dispatcher_and_updates_success_state() {
    let mut state: NoteLoadState = RequestState::idle();
    let generation = 1_u64;
    let note = sample_note();
    begin_note_load(&mut state);
    assert_eq!(state, RequestState::Loading);
    assert!(complete_note_load(&mut state, 1, generation, Ok(note.clone())));
    assert_eq!(state, RequestState::Success(note));
}

#[test]
fn note_load_updates_error_state_without_clearing_previous_note() {
    let mut state: NoteLoadState = RequestState::success(sample_note());
    begin_note_load(&mut state);
    complete_note_load(&mut state, 1, 1, Err("daemon request failed".to_string()));
    assert_eq!(state, RequestState::Error("daemon request failed".to_string()));
}

#[test]
fn stale_note_load_result_is_ignored_when_newer_selection_exists() {
    let mut first_state: NoteLoadState = RequestState::idle();
    let mut second_state: NoteLoadState = RequestState::idle();
    let generation = 2_u64;
    let first_note = sample_note();
    let mut second_note = sample_note();
    second_note.title = "Second".to_string();
    begin_note_load(&mut first_state);
    begin_note_load(&mut second_state);
    assert!(complete_note_load(&mut second_state, 2, generation, Ok(second_note.clone())));
    assert!(!complete_note_load(&mut first_state, 1, generation, Ok(first_note)));
    assert_eq!(first_state, RequestState::Loading);
    assert_eq!(second_state, RequestState::Success(second_note));
}

#[test]
fn note_load_generation_tickets_make_older_loads_stale() {
    let mut generation = 7_u64;
    let first = next_note_load_generation(&mut generation);
    let second = next_note_load_generation(&mut generation);
    assert_eq!((first, second, generation), (8, 9, 9));
    let mut state: NoteLoadState = RequestState::loading();
    assert!(!complete_note_load(&mut state, first, generation, Ok(sample_note())));
    assert_eq!(state, RequestState::Loading);
}

#[test]
fn note_load_completion_routes_to_notes_only_for_matching_origin() {
    assert!(should_route_loaded_note_to_notes(NoteLoadOrigin::Context, ToolMode::Notes));
    assert!(!should_route_loaded_note_to_notes(NoteLoadOrigin::Context, ToolMode::Search));
    assert!(should_route_loaded_note_to_notes(NoteLoadOrigin::Search, ToolMode::Search));
    assert!(should_route_loaded_note_to_notes(NoteLoadOrigin::Graph, ToolMode::Graph));
    assert!(!should_route_loaded_note_to_notes(NoteLoadOrigin::Context, ToolMode::Graph));
    assert!(!should_route_loaded_note_to_notes(NoteLoadOrigin::Search, ToolMode::Settings));
}

#[test]
fn context_selection_does_not_reuse_search_only_routing() {
    assert!(!should_route_loaded_note_to_notes(NoteLoadOrigin::Context, ToolMode::Search));
    assert!(should_route_loaded_note_to_notes(NoteLoadOrigin::Search, ToolMode::Search));
}

#[test]
fn graph_panel_state_exposes_scope_depth_and_selected_details() {
    let labels = vec![
        ("notes/one.md".to_string(), "one".to_string()),
        ("notes/two.md".to_string(), "two".to_string()),
    ];
    let edges = vec![GraphEdge { source: "notes/one.md".to_string(), target: "notes/two.md".to_string() }];
    let details = graph_context_details(Some("notes/one.md"), &labels, &edges);
    let state = graph_panel_state(GraphScope::Neighborhood, 2, GraphLoadState::Ready, details);
    assert_eq!(state.scope, GraphScope::Neighborhood);
    assert_eq!(state.depth, 2);
    assert_eq!(state.load_state, GraphLoadState::Ready);
    assert_eq!(state.details.selected_path.as_deref(), Some("notes/one.md"));
    assert_eq!(state.details.neighbors, vec!["notes/two.md".to_string()]);
}

#[test]
fn neighborhood_graph_request_without_selection_returns_error_scene() {
    let request = plan_graph_request(GraphScope::Neighborhood, None, 1);
    assert!(matches!(request, GraphRequest::Show(GraphLoadState::Error(_))));
    assert_eq!(
        request,
        GraphRequest::Show(GraphLoadState::Error(neighborhood_without_selection_message().to_string()))
    );
}

#[test]
fn graph_requests_follow_scope_and_selection() {
    assert_eq!(
        plan_graph_request(GraphScope::Vault, Some("a.md".to_string()), 3),
        GraphRequest::VaultLayout { width: 1200, height: 800 }
    );
    assert_eq!(
        plan_graph_request(GraphScope::Neighborhood, Some("a.md".to_string()), 3),
        GraphRequest::Neighbors { path: "a.md".to_string(), depth: 3 }
    );
}

#[test]
fn focus_search_shell_routes_to_search_surface_and_hides_inspector() {
    let mut shell_state = ShellState::default();
    shell_state.select_tool(ToolMode::Graph);
    focus_search_shell_state(&mut shell_state);
    assert_eq!(shell_state.tool_mode(), ToolMode::Search);
    assert_eq!(content_child_name_for_shell(&shell_state), "search");
    assert_eq!(shell_state.inspector_mode(), InspectorMode::Hidden);
}

#[test]
fn cancel_note_load_resets_state_to_idle_and_bumps_generation() {
    let mut note_load_state: NoteLoadState = RequestState::loading();
    let mut note_load_generation = 5_u64;
    cancel_note_load(&mut note_load_state, &mut note_load_generation);
    assert_eq!(note_load_state, RequestState::Idle);
    assert_eq!(note_load_generation, 6);
}

#[test]
fn cleared_note_load_result_is_ignored_and_state_stays_idle() {
    let mut note_load_state: NoteLoadState = RequestState::idle();
    let mut note_load_generation = 1_u64;
    begin_note_load(&mut note_load_state);
    cancel_note_load(&mut note_load_state, &mut note_load_generation);
    assert!(!complete_note_load(&mut note_load_state, 1, note_load_generation, Ok(sample_note())));
    assert_eq!(note_load_state, RequestState::Idle);
}

#[test]
fn note_window_title_marks_dirty_active_note() {
    assert_eq!(note_window_title(Some("Example"), false), "Example — Knot");
    assert_eq!(note_window_title(Some("Example"), true), "*Example — Knot");
    assert_eq!(note_window_title(None, false), "Knot");
}

#[test]
fn clean_note_switch_always_allows() {
    let decision = resolve_note_switch_decision(false, NoteSwitchDecision::Deny, || Ok(()));
    assert_eq!(decision, NoteSwitchDecision::Allow);
}

#[test]
fn dirty_note_switch_can_be_denied() {
    let decision = resolve_note_switch_decision(true, NoteSwitchDecision::Deny, || Ok(()));
    assert_eq!(decision, NoteSwitchDecision::Deny);
}

#[test]
fn dirty_note_switch_can_discard_and_allow() {
    let decision = resolve_note_switch_decision(true, NoteSwitchDecision::Allow, || Ok(()));
    assert_eq!(decision, NoteSwitchDecision::Allow);
}

#[test]
fn dirty_note_switch_can_save_then_allow() {
    let decision = resolve_note_switch_decision(true, NoteSwitchDecision::SaveThenAllow, || Ok(()));
    assert_eq!(decision, NoteSwitchDecision::Allow);
}

#[test]
fn failed_save_then_switch_denies_navigation() {
    let decision = resolve_note_switch_decision(true, NoteSwitchDecision::SaveThenAllow, || {
        Err("save failed".to_string())
    });
    assert_eq!(decision, NoteSwitchDecision::Deny);
}

#[test]
fn dirty_note_switch_response_maps_known_dialog_ids() {
    assert_eq!(dirty_note_switch_response("discard"), DirtyNoteSwitchResponse::Discard);
    assert_eq!(dirty_note_switch_response("save"), DirtyNoteSwitchResponse::Save);
    assert_eq!(dirty_note_switch_response("cancel"), DirtyNoteSwitchResponse::Cancel);
    assert_eq!(dirty_note_switch_response("unexpected"), DirtyNoteSwitchResponse::Cancel);
}

#[test]
fn automation_gate_requires_config_opt_in_and_runtime_token() {
    assert_eq!(automation_gate_state(false, false, None), (false, Some("config_opt_in_required")));
    assert_eq!(automation_gate_state(true, false, None), (false, Some("runtime_token_required")));
    assert_eq!(automation_gate_state(true, true, Some("dev-token")), (true, None));
}

#[test]
fn automation_description_reports_discoverable_action_catalog() {
    let description = UiAutomationDescription {
        protocol_version: UI_AUTOMATION_PROTOCOL_VERSION,
        snapshot_schema_version: UI_AUTOMATION_SNAPSHOT_SCHEMA_VERSION,
        action_catalog_version: UI_AUTOMATION_ACTION_CATALOG_VERSION,
        available: false,
        unavailable_reason: Some("runtime_token_required".to_string()),
        requires_config_opt_in: true,
        requires_runtime_token: true,
        actions: ui_automation_action_catalog(),
        result_codes: ui_automation_result_codes(),
    };
    assert_eq!(description.protocol_version, 1);
    assert_eq!(description.snapshot_schema_version, 1);
    assert_eq!(description.action_catalog_version, 1);
    assert!(description.actions.iter().any(|action| action.action_id == "switch_tool"));
    assert!(description.result_codes.contains(&"automation_disabled".to_string()));
    let built = describe_ui_automation((false, Some("runtime_token_required")));
    assert_eq!(built, description);
}

#[test]
fn automation_catalog_lists_every_action_with_its_schema() {
    let catalog = ui_automation_action_catalog();
    let ids: Vec<&str> = catalog.iter().map(|a| a.action_id.as_str()).collect();
    assert_eq!(
        ids,
        vec![
            "switch_tool",
            "focus_search",
            "select_note",
            "clear_selection",
            "set_editor_mode",
            "open_settings_section",
            "set_graph_scope",
            "set_graph_depth",
            "reset_graph"
        ]
    );
    assert_eq!(
        catalog[7].argument_schema,
        ArgumentSchema::IntegerRange { name: "depth".to_string(), minimum: 1, maximum: 10 }
    );
    assert_eq!(catalog[4].preconditions.len(), 2);
    assert_eq!(ui_automation_result_codes().len(), 8);
}

#[test]
fn automation_snapshot_builder_projects_shell_editor_graph_and_settings_state() {
    let snapshot = build_ui_automation_snapshot(AutomationSnapshotInput {
        active_tool: "settings".to_string(),
        active_content: "settings".to_string(),
        startup_state: "vault_open".to_string(),
        inspector_visible: false,
        active_note_path: Some("notes/example.md".to_string()),
        editor_mode: Some("edit".to_string()),
        editor_dirty: false,
        search_query: Some("graph".to_string()),
        graph_scope: Some("neighborhood".to_string()),
        graph_depth: Some(2),
        graph_selected_path: Some("notes/one.md".to_string()),
        settings_section: Some("plugins".to_string()),
        automation_active: true,
    });
    assert_eq!(snapshot.active_tool, "settings");
    assert_eq!(snapshot.active_content, "settings");
    assert_eq!(snapshot.startup_state, "vault_open");
    assert_eq!(snapshot.active_note_path.as_deref(), Some("notes/example.md"));
    assert_eq!(snapshot.editor_mode.as_deref(), Some("edit"));
    assert_eq!(snapshot.graph_scope.as_deref(), Some("neighborhood"));
    assert_eq!(snapshot.graph_depth, Some(2));
    assert_eq!(snapshot.graph_selected_path.as_deref(), Some("notes/one.md"));
    assert_eq!(snapshot.settings_section.as_deref(), Some("plugins"));
    assert_eq!(property(&snapshot.properties, "tool.active"), Some("settings"));
    assert_eq!(property(&snapshot.properties, "settings.section"), Some("plugins"));
    assert_eq!(property(&snapshot.properties, "graph.depth"), Some("2"));
    assert_eq!(property(&snapshot.properties, "inspector.visible"), Some("false"));
    assert_eq!(property(&snapshot.properties, "automation.active"), Some("true"));
}

#[test]
fn automation_action_result_preserves_stable_disabled_result() {
    let result = UiAutomationActionResult {
        action_id: "focus_search".to_string(),
        ok: false,
        result_code: "automation_disabled".to_string(),
        message: Some("UI automation is not enabled for this session.".to_string()),
        snapshot: None,
    };
    assert!(!result.ok);
    assert_eq!(result.action_id, "focus_search");
    assert_eq!(result.result_code, "automation_disabled");
    assert!(result.snapshot.is_none());
    let built = automation_result(
        "focus_search",
        false,
        "automation_disabled",
        Some("UI automation is not enabled for this session.".to_string()),
        None,
    );
    assert_eq!(built, result);
}

#[test]
fn automation_parsers_accept_protocol_strings() {
    assert_eq!(parse_tool_mode("graph"), Some(ToolMode::Graph));
    assert_eq!(parse_editor_mode("view"), Some(EditorMode::View));
    assert_eq!(parse_graph_scope("vault"), Some(GraphScope::Vault));
    assert_eq!(parse_settings_section("maintenance"), Some(SettingsSection::Maintenance));
    assert_eq!(parse_tool_mode("Graph"), None);
    assert_eq!(parse_editor_mode("VIEW"), None);
}

#[test]
fn automation_names_round_trip_through_parsers() {
    for mode in [ToolMode::Notes, ToolMode::Search, ToolMode::Graph, ToolMode::Settings] {
        assert_eq!(parse_tool_mode(tool_mode_name(mode)), Some(mode));
    }
    for mode in [EditorMode::Meta, EditorMode::Source, EditorMode::Edit, EditorMode::View] {
        assert_eq!(parse_editor_mode(editor_mode_name(mode)), Some(mode));
    }
    for scope in [GraphScope::Vault, GraphScope::Neighborhood] {
        assert_eq!(parse_graph_scope(graph_scope_name(scope)), Some(scope));
    }
    for section in SettingsSection::all() {
        assert_eq!(parse_settings_section(settings_section_name(section)), Some(section));
    }
    assert_eq!(startup_state_name(&StartupState::NoVault), "no_vault");
}

#[test]
fn automation_plans_refuse_before_gate_and_vault() {
    let action = UiAutomationAction::FocusSearch;
    let refused = plan_ui_automation_action(false, true, false, false, &action).unwrap_err();
    assert_eq!(refused.result_code, "automation_disabled");
    assert_eq!(refused.message, "UI automation is not enabled for this session.");
    let blocked = plan_ui_automation_action(true, false, false, false, &action).unwrap_err();
    assert_eq!(blocked.result_code, "startup_blocked");
    assert_eq!(
        plan_ui_automation_action(true, true, false, false, &action),
        Ok(AutomationStep::FocusSearch)
    );
    assert_eq!(ui_automation_action_id(&action), "focus_search");
}

#[test]
fn automation_plans_check_each_action() {
    let bad_tool = UiAutomationAction::SwitchTool { tool: "bogus".to_string() };
    let r = plan_ui_automation_action(true, true, false, false, &bad_tool).unwrap_err();
    assert_eq!(r.result_code, "invalid_arguments");
    assert_eq!(r.message, "Unknown tool 'bogus'.");
    let select = UiAutomationAction::SelectNote { path: "a.md".to_string() };
    assert_eq!(
        plan_ui_automation_action(true, true, true, false, &select).unwrap_err().result_code,
        "dirty_guard_blocked"
    );
    assert_eq!(
        plan_ui_automation_action(true, true, false, false, &select),
        Ok(AutomationStep::SelectNote("a.md".to_string()))
    );
    let mode = UiAutomationAction::SetEditorMode { mode: "edit".to_string() };
    assert_eq!(
        plan_ui_automation_action(true, true, false, false, &mode).unwrap_err().message,
        "No active note is loaded."
    );
    let depth = UiAutomationAction::SetGraphDepth { depth: 0 };
    assert_eq!(
        plan_ui_automation_action(true, true, false, false, &depth).unwrap_err().message,
        "Graph depth must be at least 1."
    );
    let step = plan_ui_automation_action(
        true,
        true,
        false,
        false,
        &UiAutomationAction::OpenSettingsSection { section: "plugins".to_string() },
    )
    .unwrap();
    assert_eq!(step, AutomationStep::OpenSettingsSection(SettingsSection::Plugins));
    assert_eq!(step_tool(&step), Some(ToolMode::Settings));
    assert_eq!(step_tool(&AutomationStep::ClearSelection), None);
}

#[test]
fn automation_outcome_attaches_snapshot_exactly_on_success() {
    let action = UiAutomationAction::FocusSearch;
    let snapshot = build_ui_automation_snapshot(AutomationSnapshotInput {
        active_tool: "search".to_string(),
        active_content: "search".to_string(),
        startup_state: "vault_open".to_string(),
        inspector_visible: false,
        active_note_path: None,
        editor_mode: None,
        editor_dirty: false,
        search_query: None,
        graph_scope: None,
        graph_depth: None,
        graph_selected_path: None,
        settings_section: None,
        automation_active: true,
    });
    let refused = automation_outcome(&action, plan_ui_automation_action(false, true, false, false, &action), None);
    assert!(!refused.ok);
    assert_eq!(refused.action_id, "focus_search");
    assert_eq!(refused.result_code, "automation_disabled");
    assert_eq!(refused.message.as_deref(), Some("UI automation is not enabled for this session."));
    assert!(refused.snapshot.is_none());
    let blocked = automation_outcome(&action, plan_ui_automation_action(true, false, false, false, &action), None);
    assert_eq!(blocked.result_code, "startup_blocked");
    assert!(blocked.snapshot.is_none());
    let done =
        automation_outcome(&action, plan_ui_automation_action(true, true, false, false, &action), Some(snapshot.clone()));
    assert!(done.ok);
    assert_eq!(done.result_code, "ok");
    assert_eq!(done.message, None);
    assert_eq!(done.snapshot, Some(snapshot));
}
