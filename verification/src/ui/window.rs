//! Decisions of the main window: the startup screen, which surface shows
//! what, note loading and switching, window titles, and the automation
//! surface. The widgets that carry these decisions out are driven by the
//! application.
use vstd::prelude::*;
use vstd::string::*;
use crate::client::NoteData;
use crate::text::{concat, decimal, str_eq, u64_to_string};
use crate::ui::automation_state::{
    ArgumentSchema, UiAutomationAction, UiAutomationActionDescription, UiAutomationActionResult,
    UiAutomationDescription, UiAutomationSnapshot,
};
use crate::ui::editor::EditorMode;
use crate::ui::explorer::NoteSwitchDecision;
use crate::ui::graph_view::{GraphLoadState, GraphScope};
use crate::ui::request_state::RequestState;
use crate::ui::settings_view::{section_name, SettingsSection};
use crate::ui::shell_state::{content_for, ContentMode, ShellState};
use crate::ui::tool_rail::ToolMode;

verus! {

/// Where a note load was started from.
#[derive(Debug, Clone, Copy, PartialEq, Eq, Structural)]
pub enum NoteLoadOrigin {
    Context,
    Search,
    Graph,
}

/// The answer to the unsaved-changes prompt.
#[derive(Debug, Clone, Copy, PartialEq, Eq, Structural)]
pub enum DirtyNoteSwitchResponse {
    Cancel,
    Discard,
    Save,
}

/// A button of the startup screen.
#[derive(Debug, Clone, Copy, PartialEq, Eq, Structural)]
pub enum StartupAction {
    RetryDaemon,
    OpenVault,
    CreateVault,
}

/// Whether the daemon and a vault are available.
#[derive(Debug, Clone, PartialEq, Eq)]
pub enum StartupState {
    DaemonUnavailable { message: String },
    NoVault,
    VaultOpen { name: Option<String> },
}

/// The startup state the daemon's answers give: whether a vault is open
/// (or why the daemon could not be asked) and, when one is, the vault's
/// name (or why it could not be read).
pub fn determine_startup_state(
    is_vault_open: Result<bool, String>,
    vault_name: Option<Result<String, String>>,
) -> (r: StartupState)
    ensures
        match is_vault_open {
            Err(message) => r == StartupState::DaemonUnavailable { message },
            Ok(false) => r == StartupState::NoVault,
            Ok(true) => match vault_name {
                Some(Ok(name)) => r == StartupState::VaultOpen { name: Some(name) },
                _ => r == StartupState::VaultOpen { name: None },
            },
        },
{
    match is_vault_open {
        Ok(true) => match vault_name {
            Some(Ok(name)) => StartupState::VaultOpen { name: Some(name) },
            _ => StartupState::VaultOpen { name: None },
        },
        Ok(false) => StartupState::NoVault,
        Err(message) => StartupState::DaemonUnavailable { message },
    }
}

/// The heading of the startup screen.
pub open spec fn header_text(s: StartupState) -> Seq<char> {
    match s {
        StartupState::DaemonUnavailable { .. } => "knotd unavailable"@,
        StartupState::NoVault => "No vault open"@,
        StartupState::VaultOpen { name: Some(n) } => "Connected to vault: "@ + n@,
        StartupState::VaultOpen { name: None } => "Connected to vault"@,
    }
}

/// The heading of the startup screen.
pub fn startup_header_text(state: &StartupState) -> (r: String)
    ensures
        r@ == header_text(*state),
{
    match state {
        StartupState::DaemonUnavailable { .. } => String::from_str("knotd unavailable"),
        StartupState::NoVault => String::from_str("No vault open"),
        StartupState::VaultOpen { name: Some(name) } => concat("Connected to vault: ", name.as_str()),
        StartupState::VaultOpen { name: None } => String::from_str("Connected to vault"),
    }
}

/// The explanation under the startup heading.
pub open spec fn detail_text(s: StartupState) -> Seq<char> {
    match s {
        StartupState::DaemonUnavailable { message } => message@,
        StartupState::NoVault => "Open or create a vault to start browsing notes."@,
        StartupState::VaultOpen { .. } => Seq::empty(),
    }
}

/// The explanation under the startup heading.
pub fn startup_detail_text(state: &StartupState) -> (r: String)
    ensures
        r@ == detail_text(*state),
{
    match state {
        StartupState::DaemonUnavailable { message } => message.clone(),
        StartupState::NoVault => String::from_str("Open or create a vault to start browsing notes."),
        StartupState::VaultOpen { .. } => String::new(),
    }
}

/// The content page shown while the startup screen is up.
pub open spec fn startup_page(s: StartupState) -> Seq<char> {
    match s {
        StartupState::DaemonUnavailable { .. } => "daemon-unavailable"@,
        StartupState::NoVault => "no-vault"@,
        StartupState::VaultOpen { .. } => "empty"@,
    }
}

/// The content page shown while the startup screen is up.
pub fn startup_content_child_name(state: &StartupState) -> (r: &'static str)
    ensures
        r@ == startup_page(*state),
{
    match state {
        StartupState::DaemonUnavailable { .. } => "daemon-unavailable",
        StartupState::NoVault => "no-vault",
        StartupState::VaultOpen { .. } => "empty",
    }
}

/// Whether the tool rail, context panel and inspector are shown: only
/// once a vault is open.
pub fn startup_shell_chrome_visible(state: &StartupState) -> (r: bool)
    ensures
        r == (*state is VaultOpen),
{
    match state {
        StartupState::VaultOpen { .. } => true,
        _ => false,
    }
}

/// The buttons the startup screen offers.
pub open spec fn startup_actions(s: StartupState) -> Seq<StartupAction> {
    match s {
        StartupState::DaemonUnavailable { .. } => seq![StartupAction::RetryDaemon],
        StartupState::NoVault => seq![StartupAction::OpenVault, StartupAction::CreateVault],
        StartupState::VaultOpen { .. } => Seq::empty(),
    }
}

/// The buttons the startup screen offers.
pub fn startup_action_specs(state: &StartupState) -> (r: Vec<StartupAction>)
    ensures
        r@ == startup_actions(*state),
{
    let mut r: Vec<StartupAction> = Vec::new();
    match state {
        StartupState::DaemonUnavailable { .. } => {
            r.push(StartupAction::RetryDaemon);
        },
        StartupState::NoVault => {
            r.push(StartupAction::OpenVault);
            r.push(StartupAction::CreateVault);
        },
        StartupState::VaultOpen { .. } => {},
    }
    assert(r@ =~= startup_actions(*state));
    r
}

/// The label of a startup button.
pub open spec fn action_label(a: StartupAction) -> Seq<char> {
    match a {
        StartupAction::RetryDaemon => "Retry after starting knotd"@,
        StartupAction::OpenVault => "Open vault"@,
        StartupAction::CreateVault => "Create vault"@,
    }
}

/// The label of a startup button.
pub fn startup_action_label(action: StartupAction) -> (r: &'static str)
    ensures
        r@ == action_label(action),
{
    match action {
        StartupAction::RetryDaemon => "Retry after starting knotd",
        StartupAction::OpenVault => "Open vault",
        StartupAction::CreateVault => "Create vault",
    }
}

/// The pages of the content stack.
pub open spec fn content_pages() -> Seq<Seq<char>> {
    seq!["empty"@, "daemon-unavailable"@, "no-vault"@, "editor"@, "search"@, "graph"@, "settings"@]
}

/// The pages of the content stack.
pub fn content_stack_child_names() -> (r: Vec<&'static str>)
    ensures
        r@.map_values(|s: &'static str| s@) == content_pages(),
{
    let mut r: Vec<&'static str> = Vec::new();
    r.push("empty");
    r.push("daemon-unavailable");
    r.push("no-vault");
    r.push("editor");
    r.push("search");
    r.push("graph");
    r.push("settings");
    assert(r@.map_values(|s: &'static str| s@) =~= content_pages());
    r
}

/// The content page for a content mode.
pub open spec fn page_for(m: ContentMode) -> Seq<char> {
    match m {
        ContentMode::Welcome => "empty"@,
        ContentMode::Note => "editor"@,
        ContentMode::Search => "search"@,
        ContentMode::Graph => "graph"@,
        ContentMode::Settings => "settings"@,
        ContentMode::Error => "daemon-unavailable"@,
    }
}

/// The content page the shell state routes to.
pub fn content_child_name_for_shell(shell_state: &ShellState) -> (r: &'static str)
    ensures
        r@ == page_for(content_for(shell_state.tool_mode, shell_state.has_selected_note)),
{
    match shell_state.content_mode() {
        ContentMode::Welcome => "empty",
        ContentMode::Note => "editor",
        ContentMode::Search => "search",
        ContentMode::Graph => "graph",
        ContentMode::Settings => "settings",
        ContentMode::Error => "daemon-unavailable",
    }
}

/// Every content page the shell routes to is a page of the content stack.
pub proof fn law_shell_pages_are_registered(s: ShellState)
    ensures
        content_pages().contains(page_for(content_for(s.tool_mode, s.has_selected_note))),
{
    let p = page_for(content_for(s.tool_mode, s.has_selected_note));
    let pages = content_pages();
    let i: int = match content_for(s.tool_mode, s.has_selected_note) {
        ContentMode::Welcome => 0,
        ContentMode::Error => 1,
        ContentMode::Note => 3,
        ContentMode::Search => 4,
        ContentMode::Graph => 5,
        ContentMode::Settings => 6,
    };
    assert(pages[i] == p);
}

/// Whether a freshly loaded note should bring the notes tool forward.
pub open spec fn routes_to_notes(origin: NoteLoadOrigin, tool: ToolMode) -> bool {
    tool == ToolMode::Notes || origin == NoteLoadOrigin::Graph || (origin == NoteLoadOrigin::Search
        && tool == ToolMode::Search)
}

/// Whether a freshly loaded note should bring the notes tool forward: when
/// the notes tool is already active, when it came from the graph, or when it
/// came from search while search is active.
pub fn should_route_loaded_note_to_notes(origin: NoteLoadOrigin, tool_mode: ToolMode) -> (r: bool)
    ensures
        r == routes_to_notes(origin, tool_mode),
{
    tool_mode == ToolMode::Notes || origin == NoteLoadOrigin::Graph || (origin == NoteLoadOrigin::Search
        && tool_mode == ToolMode::Search)
}

/// Reads the unsaved-changes prompt's answer; anything but `discard` and
/// `save` keeps editing.
pub fn dirty_note_switch_response(response: &str) -> (r: DirtyNoteSwitchResponse)
    ensures
        r == (if response@ == "discard"@ {
            DirtyNoteSwitchResponse::Discard
        } else if response@ == "save"@ {
            DirtyNoteSwitchResponse::Save
        } else {
            DirtyNoteSwitchResponse::Cancel
        }),
{
    if str_eq(response, "discard") {
        DirtyNoteSwitchResponse::Discard
    } else if str_eq(response, "save") {
        DirtyNoteSwitchResponse::Save
    } else {
        DirtyNoteSwitchResponse::Cancel
    }
}

/// Routes the shell to search.
pub fn focus_search_shell_state(shell_state: &mut ShellState)
    ensures
        final(shell_state).tool_mode == ToolMode::Search,
        final(shell_state).has_selected_note == old(shell_state).has_selected_note,
{
    shell_state.select_tool(ToolMode::Search);
}

/// The window title for the active note.
pub open spec fn window_title(note_title: Option<Seq<char>>, modified: bool) -> Seq<char> {
    match note_title {
        Some(t) => if modified {
            "*"@ + t + " — Knot"@
        } else {
            t + " — Knot"@
        },
        None => "Knot"@,
    }
}

/// The window title: the note's title, starred when it has unsaved
/// changes, or the application name when no note is open.
pub fn note_window_title(note_title: Option<&str>, modified: bool) -> (r: String)
    ensures
        r@ == window_title(
            match note_title {
                Some(t) => Some(t@),
                None => None,
            },
            modified,
        ),
{
    match note_title {
        Some(title) => {
            if modified {
                let mut r = String::from_str("*");
                r.append(title);
                r.append(" — Knot");
                r
            } else {
                concat(title, " — Knot")
            }
        },
        None => String::from_str("Knot"),
    }
}

/// What a note switch comes to: with no unsaved changes it is allowed;
/// otherwise the requested decision stands, except that "save, then allow"
/// runs `save_current_note` and allows only if the save succeeded.
pub fn resolve_note_switch_decision<Save: FnOnce() -> Result<(), String>>(
    is_modified: bool,
    requested: NoteSwitchDecision,
    save_current_note: Save,
) -> (r: NoteSwitchDecision)
    requires
        is_modified && requested == NoteSwitchDecision::SaveThenAllow ==> call_requires(
            save_current_note,
            (),
        ),
    ensures
        !is_modified ==> r == NoteSwitchDecision::Allow,
        is_modified && requested != NoteSwitchDecision::SaveThenAllow ==> r == requested,
        is_modified && requested == NoteSwitchDecision::SaveThenAllow ==> exists|saved: Result<
            (),
            String,
        >|
            call_ensures(save_current_note, (), saved) && r == (if saved is Ok {
                NoteSwitchDecision::Allow
            } else {
                NoteSwitchDecision::Deny
            }),
{
    if !is_modified {
        return NoteSwitchDecision::Allow;
    }
    match requested {
        NoteSwitchDecision::Allow => NoteSwitchDecision::Allow,
        NoteSwitchDecision::Deny => NoteSwitchDecision::Deny,
        NoteSwitchDecision::SaveThenAllow => {
            let saved = save_current_note();
            match saved {
                Ok(()) => NoteSwitchDecision::Allow,
                Err(_) => NoteSwitchDecision::Deny,
            }
        },
    }
}

// ===== Note loading =====

/// The state of loading the selected note.
pub type NoteLoadState = RequestState<NoteData, String>;

/// The state a load's result leaves behind.
pub open spec fn loaded_state(result: Result<NoteData, String>) -> NoteLoadState {
    match result {
        Ok(note) => RequestState::Success(note),
        Err(e) => RequestState::Error(e),
    }
}

/// Takes a fresh ticket for a new load, making every earlier one stale.
pub fn next_note_load_generation(generation: &mut u64) -> (ticket: u64)
    requires
        *old(generation) < u64::MAX,
    ensures
        *final(generation) == *old(generation) + 1,
        ticket == *final(generation),
{
    *generation = *generation + 1;
    *generation
}

/// Marks a load as under way.
pub fn begin_note_load(state: &mut NoteLoadState)
    ensures
        *final(state) is Loading,
{
    *state = RequestState::loading();
}

/// Delivers the result of the load holding `ticket`: it is applied only if
/// no newer load or cancellation happened since (`ticket` is still the
/// active generation); otherwise it is dropped and the state is unchanged.
pub fn complete_note_load(
    state: &mut NoteLoadState,
    ticket: u64,
    active_generation: u64,
    result: Result<NoteData, String>,
) -> (applied: bool)
    ensures
        applied == (ticket == active_generation),
        *final(state) == note_load_after(*old(state), ticket, active_generation, result),
{
    if ticket != active_generation {
        return false;
    }
    *state = match result {
        Ok(note) => RequestState::success(note),
        Err(error) => RequestState::error(error),
    };
    true
}

/// Abandons any load under way: every ticket taken so far goes stale and
/// the state returns to idle.
pub fn cancel_note_load(state: &mut NoteLoadState, generation: &mut u64)
    requires
        *old(generation) < u64::MAX,
    ensures
        *final(generation) == *old(generation) + 1,
        *final(state) is Idle,
{
    *generation = *generation + 1;
    *state = RequestState::idle();
}

/// The state after the result of the load holding `ticket` is delivered
/// while `active_generation` is the newest ticket.
pub open spec fn note_load_after(
    state: NoteLoadState,
    ticket: u64,
    active_generation: u64,
    result: Result<NoteData, String>,
) -> NoteLoadState {
    if ticket == active_generation {
        loaded_state(result)
    } else {
        state
    }
}

/// A result only lands for the latest load: once a newer ticket has been
/// taken, or the load cancelled (both advance the generation past every
/// earlier ticket), delivering an older ticket's result leaves the state as
/// it was, while the newest ticket's result is applied.
pub proof fn law_stale_note_loads_are_ignored(
    state: NoteLoadState,
    ticket: u64,
    generation: u64,
    result: Result<NoteData, String>,
)
    requires
        ticket < generation,
    ensures
        note_load_after(state, ticket, generation, result) == state,
        note_load_after(state, generation, generation, result) == loaded_state(result),
{
}

// ===== Automation =====

/// Version of the automation protocol.
pub const UI_AUTOMATION_PROTOCOL_VERSION: u32 = 1;
/// Version of the snapshot layout.
pub const UI_AUTOMATION_SNAPSHOT_SCHEMA_VERSION: u32 = 1;
/// Version of the action catalog.
pub const UI_AUTOMATION_ACTION_CATALOG_VERSION: u32 = 1;

/// The name automation uses for a startup state.
pub open spec fn startup_name(s: StartupState) -> Seq<char> {
    match s {
        StartupState::DaemonUnavailable { .. } => "daemon_unavailable"@,
        StartupState::NoVault => "no_vault"@,
        StartupState::VaultOpen { .. } => "vault_open"@,
    }
}

/// The name automation uses for a startup state.
pub fn startup_state_name(state: &StartupState) -> (r: &'static str)
    ensures
        r@ == startup_name(*state),
{
    match state {
        StartupState::DaemonUnavailable { .. } => "daemon_unavailable",
        StartupState::NoVault => "no_vault",
        StartupState::VaultOpen { .. } => "vault_open",
    }
}

/// The name automation uses for a tool.
pub open spec fn tool_name(m: ToolMode) -> Seq<char> {
    match m {
        ToolMode::Notes => "notes"@,
        ToolMode::Search => "search"@,
        ToolMode::Graph => "graph"@,
        ToolMode::Settings => "settings"@,
    }
}

/// The name automation uses for a tool.
pub fn tool_mode_name(mode: ToolMode) -> (r: &'static str)
    ensures
        r@ == tool_name(mode),
{
    match mode {
        ToolMode::Notes => "notes",
        ToolMode::Search => "search",
        ToolMode::Graph => "graph",
        ToolMode::Settings => "settings",
    }
}

/// The tool a name stands for.
pub open spec fn tool_by_name(v: Seq<char>) -> Option<ToolMode> {
    if v == "notes"@ {
        Some(ToolMode::Notes)
    } else if v == "search"@ {
        Some(ToolMode::Search)
    } else if v == "graph"@ {
        Some(ToolMode::Graph)
    } else if v == "settings"@ {
        Some(ToolMode::Settings)
    } else {
        None
    }
}

/// The tool a name stands for.
pub fn parse_tool_mode(value: &str) -> (r: Option<ToolMode>)
    ensures
        r == tool_by_name(value@),
{
    if str_eq(value, "notes") {
        Some(ToolMode::Notes)
    } else if str_eq(value, "search") {
        Some(ToolMode::Search)
    } else if str_eq(value, "graph") {
        Some(ToolMode::Graph)
    } else if str_eq(value, "settings") {
        Some(ToolMode::Settings)
    } else {
        None
    }
}

/// The name automation uses for an editor mode.
pub open spec fn editor_name(m: EditorMode) -> Seq<char> {
    match m {
        EditorMode::Meta => "meta"@,
        EditorMode::Source => "source"@,
        EditorMode::Edit => "edit"@,
        EditorMode::View => "view"@,
    }
}

/// The name automation uses for an editor mode.
pub fn editor_mode_name(mode: EditorMode) -> (r: &'static str)
    ensures
        r@ == editor_name(mode),
{
    match mode {
        EditorMode::Meta => "meta",
        EditorMode::Source => "source",
        EditorMode::Edit => "edit",
        EditorMode::View => "view",
    }
}

/// The editor mode a name stands for.
pub open spec fn editor_by_name(v: Seq<char>) -> Option<EditorMode> {
    if v == "meta"@ {
        Some(EditorMode::Meta)
    } else if v == "source"@ {
        Some(EditorMode::Source)
    } else if v == "edit"@ {
        Some(EditorMode::Edit)
    } else if v == "view"@ {
        Some(EditorMode::View)
    } else {
        None
    }
}

/// The editor mode a name stands for.
pub fn parse_editor_mode(value: &str) -> (r: Option<EditorMode>)
    ensures
        r == editor_by_name(value@),
{
    if str_eq(value, "meta") {
        Some(EditorMode::Meta)
    } else if str_eq(value, "source") {
        Some(EditorMode::Source)
    } else if str_eq(value, "edit") {
        Some(EditorMode::Edit)
    } else if str_eq(value, "view") {
        Some(EditorMode::View)
    } else {
        None
    }
}

/// The name automation uses for a graph scope.
pub open spec fn scope_name(s: GraphScope) -> Seq<char> {
    match s {
        GraphScope::Vault => "vault"@,
        GraphScope::Neighborhood => "neighborhood"@,
    }
}

/// The name automation uses for a graph scope.
pub fn graph_scope_name(scope: GraphScope) -> (r: &'static str)
    ensures
        r@ == scope_name(scope),
{
    match scope {
        GraphScope::Vault => "vault",
        GraphScope::Neighborhood => "neighborhood",
    }
}

/// The graph scope a name stands for.
pub open spec fn scope_by_name(v: Seq<char>) -> Option<GraphScope> {
    if v == "vault"@ {
        Some(GraphScope::Vault)
    } else if v == "neighborhood"@ {
        Some(GraphScope::Neighborhood)
    } else {
        None
    }
}

/// The graph scope a name stands for.
pub fn parse_graph_scope(value: &str) -> (r: Option<GraphScope>)
    ensures
        r == scope_by_name(value@),
{
    if str_eq(value, "vault") {
        Some(GraphScope::Vault)
    } else if str_eq(value, "neighborhood") {
        Some(GraphScope::Neighborhood)
    } else {
        None
    }
}

/// The name automation uses for a settings page.
pub fn settings_section_name(section: SettingsSection) -> (r: &'static str)
    ensures
        r@ == section_name(section),
{
    section.stack_name()
}

/// The settings page a name stands for.
pub open spec fn section_by_name(v: Seq<char>) -> Option<SettingsSection> {
    if v == "general"@ {
        Some(SettingsSection::General)
    } else if v == "appearance"@ {
        Some(SettingsSection::Appearance)
    } else if v == "controls"@ {
        Some(SettingsSection::Controls)
    } else if v == "vault"@ {
        Some(SettingsSection::Vault)
    } else if v == "plugins"@ {
        Some(SettingsSection::Plugins)
    } else if v == "maintenance"@ {
        Some(SettingsSection::Maintenance)
    } else {
        None
    }
}

/// The settings page a name stands for.
pub fn parse_settings_section(value: &str) -> (r: Option<SettingsSection>)
    ensures
        r == section_by_name(value@),
{
    if str_eq(value, "general") {
        Some(SettingsSection::General)
    } else if str_eq(value, "appearance") {
        Some(SettingsSection::Appearance)
    } else if str_eq(value, "controls") {
        Some(SettingsSection::Controls)
    } else if str_eq(value, "vault") {
        Some(SettingsSection::Vault)
    } else if str_eq(value, "plugins") {
        Some(SettingsSection::Plugins)
    } else if str_eq(value, "maintenance") {
        Some(SettingsSection::Maintenance)
    } else {
        None
    }
}

/// Names and parsers agree: every tool, editor mode, graph scope and
/// settings page is read back from its own name, and a name that is read
/// as one of them is that one's name.
pub proof fn law_names_round_trip(t: ToolMode, m: EditorMode, g: GraphScope, s: SettingsSection, v: Seq<char>)
    ensures
        tool_by_name(tool_name(t)) == Some(t),
        editor_by_name(editor_name(m)) == Some(m),
        scope_by_name(scope_name(g)) == Some(g),
        section_by_name(section_name(s)) == Some(s),
        tool_by_name(v) matches Some(x) ==> v == tool_name(x),
        editor_by_name(v) matches Some(x) ==> v == editor_name(x),
        scope_by_name(v) matches Some(x) ==> v == scope_name(x),
        section_by_name(v) matches Some(x) ==> v == section_name(x),
{
    lemma_distinct_names();
}

/// The names used by automation differ from one another.
proof fn lemma_distinct_names()
    ensures
        "notes"@ != "search"@ && "notes"@ != "graph"@ && "notes"@ != "settings"@ && "search"@
            != "graph"@ && "search"@ != "settings"@ && "graph"@ != "settings"@,
        "meta"@ != "source"@ && "meta"@ != "edit"@ && "meta"@ != "view"@ && "source"@ != "edit"@
            && "source"@ != "view"@ && "edit"@ != "view"@,
        "vault"@ != "neighborhood"@,
        "general"@ != "appearance"@ && "general"@ != "controls"@ && "general"@ != "vault"@
            && "general"@ != "plugins"@ && "general"@ != "maintenance"@ && "appearance"@
            != "controls"@ && "appearance"@ != "vault"@ && "appearance"@ != "plugins"@
            && "appearance"@ != "maintenance"@ && "controls"@ != "vault"@ && "controls"@
            != "plugins"@ && "controls"@ != "maintenance"@ && "vault"@ != "plugins"@ && "vault"@
            != "maintenance"@ && "plugins"@ != "maintenance"@,
{
    reveal_strlit("notes");
    reveal_strlit("search");
    reveal_strlit("graph");
    reveal_strlit("settings");
    reveal_strlit("meta");
    reveal_strlit("source");
    reveal_strlit("edit");
    reveal_strlit("view");
    reveal_strlit("vault");
    reveal_strlit("neighborhood");
    reveal_strlit("general");
    reveal_strlit("appearance");
    reveal_strlit("controls");
    reveal_strlit("plugins");
    reveal_strlit("maintenance");
    assert("notes"@[0] != "search"@[0]);
    assert("notes"@[0] != "graph"@[0]);
    assert("notes"@[0] != "settings"@[0]);
    assert("search"@[0] != "graph"@[0]);
    assert("search"@[2] != "settings"@[2]);
    assert("graph"@[0] != "settings"@[0]);
    assert("meta"@[0] != "source"@[0]);
    assert("meta"@[0] != "edit"@[0]);
    assert("meta"@[0] != "view"@[0]);
    assert("source"@[0] != "edit"@[0]);
    assert("source"@[0] != "view"@[0]);
    assert("edit"@[0] != "view"@[0]);
    assert("vault"@[0] != "neighborhood"@[0]);
    assert("general"@[0] != "appearance"@[0]);
    assert("general"@[0] != "controls"@[0]);
    assert("general"@[0] != "vault"@[0]);
    assert("general"@[0] != "plugins"@[0]);
    assert("general"@[0] != "maintenance"@[0]);
    assert("appearance"@[0] != "controls"@[0]);
    assert("appearance"@[0] != "vault"@[0]);
    assert("appearance"@[0] != "plugins"@[0]);
    assert("appearance"@[0] != "maintenance"@[0]);
    assert("controls"@[0] != "vault"@[0]);
    assert("controls"@[0] != "plugins"@[0]);
    assert("controls"@[0] != "maintenance"@[0]);
    assert("vault"@[0] != "plugins"@[0]);
    assert("vault"@[0] != "maintenance"@[0]);
    assert("plugins"@[0] != "maintenance"@[0]);
}

/// Whether automation may drive the window, and why not when it may not:
/// the settings file must opt in, and the process must have been started
/// with automation enabled and a token.
pub fn automation_gate_state(
    config_enabled: bool,
    runtime_enabled: bool,
    runtime_token: Option<&str>,
) -> (r: (bool, Option<&'static str>))
    ensures
        !config_enabled ==> !r.0 && (r.1 matches Some(m) && m@ == "config_opt_in_required"@),
        config_enabled && (!runtime_enabled || runtime_token is None) ==> !r.0 && (r.1 matches Some(
            m,
        ) && m@ == "runtime_token_required"@),
        config_enabled && runtime_enabled && runtime_token is Some ==> r.0 && r.1 is None,
{
    if !config_enabled {
        return (false, Some("config_opt_in_required"));
    }
    if !runtime_enabled || runtime_token.is_none() {
        return (false, Some("runtime_token_required"));
    }
    (true, None)
}


/// The result codes automation can report, in catalog order.
pub open spec fn result_code_list() -> Seq<Seq<char>> {
    seq!["ok"@, "automation_disabled"@, "invalid_token"@, "startup_blocked"@, "dirty_guard_blocked"@, "unsupported_context"@, "not_found"@, "invalid_arguments"@]
}

/// The views of a list of strings.
pub open spec fn string_views(v: Seq<String>) -> Seq<Seq<char>> {
    v.map_values(|s: String| s@)
}

/// Builds a list of owned strings from string literals.
fn owned_list(items: &Vec<&'static str>) -> (r: Vec<String>)
    ensures
        string_views(r@) == items@.map_values(|s: &'static str| s@),
{
    let mut r: Vec<String> = Vec::new();
    let mut i: usize = 0;
    while i < items.len()
        invariant
            i <= items.len(),
            r@.len() == i,
            string_views(r@) == items@.subrange(0, i as int).map_values(|s: &'static str| s@),
        decreases items.len() - i,
    {
        let item: &'static str = items[i];
        let o = String::from_str(item);
        assert(o@ == items@[i as int]@);
        let ghost before = string_views(r@);
        r.push(o);
        assert(string_views(r@) =~= before.push(o@));
        assert(items@.subrange(0, i + 1).map_values(|s: &'static str| s@) =~= items@.subrange(
            0,
            i as int,
        ).map_values(|s: &'static str| s@).push(items@[i as int]@));
        i = i + 1;
    }
    assert(items@.subrange(0, items.len() as int) =~= items@);
    r
}

/// The result codes automation can report.
pub fn ui_automation_result_codes() -> (r: Vec<String>)
    ensures
        string_views(r@) == result_code_list(),
{
    let mut items: Vec<&'static str> = Vec::new();
    items.push("ok");
    items.push("automation_disabled");
    items.push("invalid_token");
    items.push("startup_blocked");
    items.push("dirty_guard_blocked");
    items.push("unsupported_context");
    items.push("not_found");
    items.push("invalid_arguments");
    let r = owned_list(&items);
    assert(items@.map_values(|s: &'static str| s@) =~= result_code_list());
    r
}


/// The shape of an action's arguments, as plain values.
pub enum SchemaView {
    NoArguments,
    StringChoice { name: Seq<char>, values: Seq<Seq<char>> },
    Text { name: Seq<char> },
    IntegerRange { name: Seq<char>, minimum: int, maximum: int },
}

/// The value of an argument schema.
pub open spec fn schema_view(s: ArgumentSchema) -> SchemaView {
    match s {
        ArgumentSchema::NoArguments => SchemaView::NoArguments,
        ArgumentSchema::StringChoice { name, values } => SchemaView::StringChoice {
            name: name@,
            values: string_views(values@),
        },
        ArgumentSchema::Text { name } => SchemaView::Text { name: name@ },
        ArgumentSchema::IntegerRange { name, minimum, maximum } => SchemaView::IntegerRange {
            name: name@,
            minimum: minimum as int,
            maximum: maximum as int,
        },
    }
}

/// One catalog entry as plain values.
pub struct ActionEntry {
    pub action_id: Seq<char>,
    pub title: Seq<char>,
    pub description: Seq<char>,
    pub schema: SchemaView,
    pub preconditions: Seq<Seq<char>>,
    pub result_codes: Seq<Seq<char>>,
}

/// The value of a catalog entry.
pub open spec fn entry_view(d: UiAutomationActionDescription) -> ActionEntry {
    ActionEntry {
        action_id: d.action_id@,
        title: d.title@,
        description: d.description@,
        schema: schema_view(d.argument_schema),
        preconditions: string_views(d.preconditions@),
        result_codes: string_views(d.result_codes@),
    }
}


/// The action catalog.
pub open spec fn catalog() -> Seq<ActionEntry> {
    seq![
        ActionEntry {
            action_id: "switch_tool"@,
            title: "Switch Tool"@,
            description: "Switch the active shell tool."@,
            schema: SchemaView::StringChoice { name: "tool"@, values: seq!["notes"@, "search"@, "graph"@, "settings"@] },
            preconditions: seq!["startup.state == vault_open"@],
            result_codes: seq!["ok"@, "automation_disabled"@, "startup_blocked"@, "invalid_arguments"@],
        },
        ActionEntry {
            action_id: "focus_search"@,
            title: "Focus Search"@,
            description: "Route to search and focus the query entry."@,
            schema: SchemaView::NoArguments,
            preconditions: seq!["startup.state == vault_open"@],
            result_codes: seq!["ok"@, "automation_disabled"@, "startup_blocked"@],
        },
        ActionEntry {
            action_id: "select_note"@,
            title: "Select Note"@,
            description: "Load the note at the given path and route to notes."@,
            schema: SchemaView::Text { name: "path"@ },
            preconditions: seq!["startup.state == vault_open"@],
            result_codes: seq!["ok"@, "automation_disabled"@, "startup_blocked"@, "dirty_guard_blocked"@],
        },
        ActionEntry {
            action_id: "clear_selection"@,
            title: "Clear Selection"@,
            description: "Clear the active note selection."@,
            schema: SchemaView::NoArguments,
            preconditions: seq!["startup.state == vault_open"@],
            result_codes: seq!["ok"@, "automation_disabled"@, "startup_blocked"@, "dirty_guard_blocked"@],
        },
        ActionEntry {
            action_id: "set_editor_mode"@,
            title: "Set Editor Mode"@,
            description: "Switch the note editor to an available mode."@,
            schema: SchemaView::StringChoice { name: "mode"@, values: seq!["meta"@, "source"@, "edit"@, "view"@] },
            preconditions: seq!["startup.state == vault_open"@, "active_note_path != null"@],
            result_codes: seq!["ok"@, "automation_disabled"@, "startup_blocked"@, "unsupported_context"@, "invalid_arguments"@],
        },
        ActionEntry {
            action_id: "open_settings_section"@,
            title: "Open Settings Section"@,
            description: "Switch to settings and show the requested section."@,
            schema: SchemaView::StringChoice { name: "section"@, values: seq!["general"@, "appearance"@, "controls"@, "vault"@, "plugins"@, "maintenance"@] },
            preconditions: seq!["startup.state == vault_open"@],
            result_codes: seq!["ok"@, "automation_disabled"@, "startup_blocked"@, "invalid_arguments"@],
        },
        ActionEntry {
            action_id: "set_graph_scope"@,
            title: "Set Graph Scope"@,
            description: "Set the graph scope and refresh the graph surface."@,
            schema: SchemaView::StringChoice { name: "scope"@, values: seq!["vault"@, "neighborhood"@] },
            preconditions: seq!["startup.state == vault_open"@],
            result_codes: seq!["ok"@, "automation_disabled"@, "startup_blocked"@, "invalid_arguments"@],
        },
        ActionEntry {
            action_id: "set_graph_depth"@,
            title: "Set Graph Depth"@,
            description: "Set neighborhood graph depth and refresh when needed."@,
            schema: SchemaView::IntegerRange { name: "depth"@, minimum: 1, maximum: 10 },
            preconditions: seq!["startup.state == vault_open"@],
            result_codes: seq!["ok"@, "automation_disabled"@, "startup_blocked"@, "invalid_arguments"@],
        },
        ActionEntry {
            action_id: "reset_graph"@,
            title: "Reset Graph"@,
            description: "Reset graph scope, depth, and selection to vault defaults."@,
            schema: SchemaView::NoArguments,
            preconditions: seq!["startup.state == vault_open"@],
            result_codes: seq!["ok"@, "automation_disabled"@, "startup_blocked"@],
        },
    ]
}


/// The actions automation can ask for, with their argument shapes,
/// preconditions and possible result codes.
#[verifier::rlimit(50)]
pub fn ui_automation_action_catalog() -> (r: Vec<UiAutomationActionDescription>)
    ensures
        r@.len() == catalog().len(),
        forall|i: int| 0 <= i < r@.len() ==> entry_view(#[trigger] r@[i]) == catalog()[i],
{
    let mut r: Vec<UiAutomationActionDescription> = Vec::new();
    let mut values: Vec<&'static str> = Vec::new();
    values.push("notes");
    values.push("search");
    values.push("graph");
    values.push("settings");
    let values = owned_list(&values);
    let mut pre: Vec<&'static str> = Vec::new();
    pre.push("startup.state == vault_open");
    let mut codes: Vec<&'static str> = Vec::new();
    codes.push("ok");
    codes.push("automation_disabled");
    codes.push("startup_blocked");
    codes.push("invalid_arguments");
    let e = UiAutomationActionDescription {
        action_id: String::from_str("switch_tool"),
        title: String::from_str("Switch Tool"),
        description: String::from_str("Switch the active shell tool."),
        argument_schema: ArgumentSchema::StringChoice { name: String::from_str("tool"), values },
        preconditions: owned_list(&pre),
        result_codes: owned_list(&codes),
    };
    assert(string_views(e.argument_schema->values@) =~= seq!["notes"@, "search"@, "graph"@, "settings"@]);
    assert(string_views(e.preconditions@) =~= seq!["startup.state == vault_open"@]);
    assert(string_views(e.result_codes@) =~= seq!["ok"@, "automation_disabled"@, "startup_blocked"@, "invalid_arguments"@]);
    r.push(e);
    assert(entry_view(r@[0]) == catalog()[0]);
    let mut pre: Vec<&'static str> = Vec::new();
    pre.push("startup.state == vault_open");
    let mut codes: Vec<&'static str> = Vec::new();
    codes.push("ok");
    codes.push("automation_disabled");
    codes.push("startup_blocked");
    let e = UiAutomationActionDescription {
        action_id: String::from_str("focus_search"),
        title: String::from_str("Focus Search"),
        description: String::from_str("Route to search and focus the query entry."),
        argument_schema: ArgumentSchema::NoArguments,
        preconditions: owned_list(&pre),
        result_codes: owned_list(&codes),
    };
    assert(string_views(e.preconditions@) =~= seq!["startup.state == vault_open"@]);
    assert(string_views(e.result_codes@) =~= seq!["ok"@, "automation_disabled"@, "startup_blocked"@]);
    r.push(e);
    assert(entry_view(r@[1]) == catalog()[1]);
    let mut pre: Vec<&'static str> = Vec::new();
    pre.push("startup.state == vault_open");
    let mut codes: Vec<&'static str> = Vec::new();
    codes.push("ok");
    codes.push("automation_disabled");
    codes.push("startup_blocked");
    codes.push("dirty_guard_blocked");
    let e = UiAutomationActionDescription {
        action_id: String::from_str("select_note"),
        title: String::from_str("Select Note"),
        description: String::from_str("Load the note at the given path and route to notes."),
        argument_schema: ArgumentSchema::Text { name: String::from_str("path") },
        preconditions: owned_list(&pre),
        result_codes: owned_list(&codes),
    };
    assert(string_views(e.preconditions@) =~= seq!["startup.state == vault_open"@]);
    assert(string_views(e.result_codes@) =~= seq!["ok"@, "automation_disabled"@, "startup_blocked"@, "dirty_guard_blocked"@]);
    r.push(e);
    assert(entry_view(r@[2]) == catalog()[2]);
    let mut pre: Vec<&'static str> = Vec::new();
    pre.push("startup.state == vault_open");
    let mut codes: Vec<&'static str> = Vec::new();
    codes.push("ok");
    codes.push("automation_disabled");
    codes.push("startup_blocked");
    codes.push("dirty_guard_blocked");
    let e = UiAutomationActionDescription {
        action_id: String::from_str("clear_selection"),
        title: String::from_str("Clear Selection"),
        description: String::from_str("Clear the active note selection."),
        argument_schema: ArgumentSchema::NoArguments,
        preconditions: owned_list(&pre),
        result_codes: owned_list(&codes),
    };
    assert(string_views(e.preconditions@) =~= seq!["startup.state == vault_open"@]);
    assert(string_views(e.result_codes@) =~= seq!["ok"@, "automation_disabled"@, "startup_blocked"@, "dirty_guard_blocked"@]);
    r.push(e);
    assert(entry_view(r@[3]) == catalog()[3]);
    let mut values: Vec<&'static str> = Vec::new();
    values.push("meta");
    values.push("source");
    values.push("edit");
    values.push("view");
    let values = owned_list(&values);
    let mut pre: Vec<&'static str> = Vec::new();
    pre.push("startup.state == vault_open");
    pre.push("active_note_path != null");
    let mut codes: Vec<&'static str> = Vec::new();
    codes.push("ok");
    codes.push("automation_disabled");
    codes.push("startup_blocked");
    codes.push("unsupported_context");
    codes.push("invalid_arguments");
    let e = UiAutomationActionDescription {
        action_id: String::from_str("set_editor_mode"),
        title: String::from_str("Set Editor Mode"),
        description: String::from_str("Switch the note editor to an available mode."),
        argument_schema: ArgumentSchema::StringChoice { name: String::from_str("mode"), values },
        preconditions: owned_list(&pre),
        result_codes: owned_list(&codes),
    };
    assert(string_views(e.argument_schema->values@) =~= seq!["meta"@, "source"@, "edit"@, "view"@]);
    assert(string_views(e.preconditions@) =~= seq!["startup.state == vault_open"@, "active_note_path != null"@]);
    assert(string_views(e.result_codes@) =~= seq!["ok"@, "automation_disabled"@, "startup_blocked"@, "unsupported_context"@, "invalid_arguments"@]);
    r.push(e);
    assert(entry_view(r@[4]) == catalog()[4]);
    let mut values: Vec<&'static str> = Vec::new();
    values.push("general");
    values.push("appearance");
    values.push("controls");
    values.push("vault");
    values.push("plugins");
    values.push("maintenance");
    let values = owned_list(&values);
    let mut pre: Vec<&'static str> = Vec::new();
    pre.push("startup.state == vault_open");
    let mut codes: Vec<&'static str> = Vec::new();
    codes.push("ok");
    codes.push("automation_disabled");
    codes.push("startup_blocked");
    codes.push("invalid_arguments");
    let e = UiAutomationActionDescription {
        action_id: String::from_str("open_settings_section"),
        title: String::from_str("Open Settings Section"),
        description: String::from_str("Switch to settings and show the requested section."),
        argument_schema: ArgumentSchema::StringChoice { name: String::from_str("section"), values },
        preconditions: owned_list(&pre),
        result_codes: owned_list(&codes),
    };
    assert(string_views(e.argument_schema->values@) =~= seq!["general"@, "appearance"@, "controls"@, "vault"@, "plugins"@, "maintenance"@]);
    assert(string_views(e.preconditions@) =~= seq!["startup.state == vault_open"@]);
    assert(string_views(e.result_codes@) =~= seq!["ok"@, "automation_disabled"@, "startup_blocked"@, "invalid_arguments"@]);
    r.push(e);
    assert(entry_view(r@[5]) == catalog()[5]);
    let mut values: Vec<&'static str> = Vec::new();
    values.push("vault");
    values.push("neighborhood");
    let values = owned_list(&values);
    let mut pre: Vec<&'static str> = Vec::new();
    pre.push("startup.state == vault_open");
    let mut codes: Vec<&'static str> = Vec::new();
    codes.push("ok");
    codes.push("automation_disabled");
    codes.push("startup_blocked");
    codes.push("invalid_arguments");
    let e = UiAutomationActionDescription {
        action_id: String::from_str("set_graph_scope"),
        title: String::from_str("Set Graph Scope"),
        description: String::from_str("Set the graph scope and refresh the graph surface."),
        argument_schema: ArgumentSchema::StringChoice { name: String::from_str("scope"), values },
        preconditions: owned_list(&pre),
        result_codes: owned_list(&codes),
    };
    assert(string_views(e.argument_schema->values@) =~= seq!["vault"@, "neighborhood"@]);
    assert(string_views(e.preconditions@) =~= seq!["startup.state == vault_open"@]);
    assert(string_views(e.result_codes@) =~= seq!["ok"@, "automation_disabled"@, "startup_blocked"@, "invalid_arguments"@]);
    r.push(e);
    assert(entry_view(r@[6]) == catalog()[6]);
    let mut pre: Vec<&'static str> = Vec::new();
    pre.push("startup.state == vault_open");
    let mut codes: Vec<&'static str> = Vec::new();
    codes.push("ok");
    codes.push("automation_disabled");
    codes.push("startup_blocked");
    codes.push("invalid_arguments");
    let e = UiAutomationActionDescription {
        action_id: String::from_str("set_graph_depth"),
        title: String::from_str("Set Graph Depth"),
        description: String::from_str("Set neighborhood graph depth and refresh when needed."),
        argument_schema: ArgumentSchema::IntegerRange { name: String::from_str("depth"), minimum: 1, maximum: 10 },
        preconditions: owned_list(&pre),
        result_codes: owned_list(&codes),
    };
    assert(string_views(e.preconditions@) =~= seq!["startup.state == vault_open"@]);
    assert(string_views(e.result_codes@) =~= seq!["ok"@, "automation_disabled"@, "startup_blocked"@, "invalid_arguments"@]);
    r.push(e);
    assert(entry_view(r@[7]) == catalog()[7]);
    let mut pre: Vec<&'static str> = Vec::new();
    pre.push("startup.state == vault_open");
    let mut codes: Vec<&'static str> = Vec::new();
    codes.push("ok");
    codes.push("automation_disabled");
    codes.push("startup_blocked");
    let e = UiAutomationActionDescription {
        action_id: String::from_str("reset_graph"),
        title: String::from_str("Reset Graph"),
        description: String::from_str("Reset graph scope, depth, and selection to vault defaults."),
        argument_schema: ArgumentSchema::NoArguments,
        preconditions: owned_list(&pre),
        result_codes: owned_list(&codes),
    };
    assert(string_views(e.preconditions@) =~= seq!["startup.state == vault_open"@]);
    assert(string_views(e.result_codes@) =~= seq!["ok"@, "automation_disabled"@, "startup_blocked"@]);
    r.push(e);
    assert(entry_view(r@[8]) == catalog()[8]);
    r
}

/// The identifier of each automation action.
pub open spec fn action_id_of(a: UiAutomationAction) -> Seq<char> {
    match a {
        UiAutomationAction::SwitchTool { .. } => "switch_tool"@,
        UiAutomationAction::FocusSearch => "focus_search"@,
        UiAutomationAction::SelectNote { .. } => "select_note"@,
        UiAutomationAction::ClearSelection => "clear_selection"@,
        UiAutomationAction::SetEditorMode { .. } => "set_editor_mode"@,
        UiAutomationAction::OpenSettingsSection { .. } => "open_settings_section"@,
        UiAutomationAction::SetGraphScope { .. } => "set_graph_scope"@,
        UiAutomationAction::SetGraphDepth { .. } => "set_graph_depth"@,
        UiAutomationAction::ResetGraph => "reset_graph"@,
    }
}

/// The identifier of an automation action.
pub fn ui_automation_action_id(action: &UiAutomationAction) -> (r: &'static str)
    ensures
        r@ == action_id_of(*action),
{
    match action {
        UiAutomationAction::SwitchTool { .. } => "switch_tool",
        UiAutomationAction::FocusSearch => "focus_search",
        UiAutomationAction::SelectNote { .. } => "select_note",
        UiAutomationAction::ClearSelection => "clear_selection",
        UiAutomationAction::SetEditorMode { .. } => "set_editor_mode",
        UiAutomationAction::OpenSettingsSection { .. } => "open_settings_section",
        UiAutomationAction::SetGraphScope { .. } => "set_graph_scope",
        UiAutomationAction::SetGraphDepth { .. } => "set_graph_depth",
        UiAutomationAction::ResetGraph => "reset_graph",
    }
}

/// Why an automation action was refused.
#[derive(Debug, Clone, PartialEq, Eq)]
pub struct AutomationRefusal {
    pub result_code: String,
    pub message: String,
}

/// What the window does for an accepted automation action.
#[derive(Debug, Clone, PartialEq, Eq)]
pub enum AutomationStep {
    SwitchTool(ToolMode),
    FocusSearch,
    SelectNote(String),
    ClearSelection,
    SetEditorMode(EditorMode),
    OpenSettingsSection(SettingsSection),
    SetGraphScope(GraphScope),
    SetGraphDepth(u8),
    ResetGraph,
}

/// Whether `r` is the refusal with code `code` and text `message`.
pub open spec fn refused(r: Result<AutomationStep, AutomationRefusal>, code: Seq<char>, message: Seq<char>) -> bool {
    r matches Err(f) && f.result_code@ == code && f.message@ == message
}

/// The refusal with the given code and text.
fn refusal(code: &str, message: &str) -> (r: AutomationRefusal)
    ensures
        r.result_code@ == code@,
        r.message@ == message@,
{
    AutomationRefusal { result_code: String::from_str(code), message: String::from_str(message) }
}

/// What an automation action comes to, before anything is done: refused
/// while automation is closed, then while no vault is open; otherwise each
/// action's own arguments and preconditions decide.
pub fn plan_ui_automation_action(
    gate_open: bool,
    vault_open: bool,
    editor_dirty: bool,
    has_active_note: bool,
    action: &UiAutomationAction,
) -> (r: Result<AutomationStep, AutomationRefusal>)
    ensures
        !gate_open ==> refused(
            r,
            "automation_disabled"@,
            "UI automation is not enabled for this session."@,
        ),
        gate_open && !vault_open ==> refused(
            r,
            "startup_blocked"@,
            "A vault must be open before automation can drive the shell."@,
        ),
        gate_open && vault_open ==> match *action {
            UiAutomationAction::SwitchTool { tool } => match tool_by_name(tool@) {
                Some(m) => r == Ok::<AutomationStep, AutomationRefusal>(AutomationStep::SwitchTool(m)),
                None => refused(r, "invalid_arguments"@, "Unknown tool '"@ + tool@ + "'."@),
            },
            UiAutomationAction::FocusSearch => r == Ok::<AutomationStep, AutomationRefusal>(
                AutomationStep::FocusSearch,
            ),
            UiAutomationAction::SelectNote { path } => if editor_dirty {
                refused(r, "dirty_guard_blocked"@, "Dirty note guard blocked note selection."@)
            } else {
                r matches Ok(AutomationStep::SelectNote(p)) && p@ == path@
            },
            UiAutomationAction::ClearSelection => if editor_dirty {
                refused(r, "dirty_guard_blocked"@, "Dirty note guard blocked selection clear."@)
            } else {
                r == Ok::<AutomationStep, AutomationRefusal>(AutomationStep::ClearSelection)
            },
            UiAutomationAction::SetEditorMode { mode } => match editor_by_name(mode@) {
                None => refused(r, "invalid_arguments"@, "Unknown editor mode."@),
                Some(m) => if !has_active_note {
                    refused(r, "unsupported_context"@, "No active note is loaded."@)
                } else {
                    r == Ok::<AutomationStep, AutomationRefusal>(AutomationStep::SetEditorMode(m))
                },
            },
            UiAutomationAction::OpenSettingsSection { section } => match section_by_name(section@) {
                Some(s) => r == Ok::<AutomationStep, AutomationRefusal>(
                    AutomationStep::OpenSettingsSection(s),
                ),
                None => refused(r, "invalid_arguments"@, "Unknown settings section."@),
            },
            UiAutomationAction::SetGraphScope { scope } => match scope_by_name(scope@) {
                Some(g) => r == Ok::<AutomationStep, AutomationRefusal>(AutomationStep::SetGraphScope(g)),
                None => refused(r, "invalid_arguments"@, "Unknown graph scope."@),
            },
            UiAutomationAction::SetGraphDepth { depth } => if depth == 0 {
                refused(r, "invalid_arguments"@, "Graph depth must be at least 1."@)
            } else {
                r == Ok::<AutomationStep, AutomationRefusal>(AutomationStep::SetGraphDepth(depth))
            },
            UiAutomationAction::ResetGraph => r == Ok::<AutomationStep, AutomationRefusal>(
                AutomationStep::ResetGraph,
            ),
        },
{
    if !gate_open {
        return Err(refusal("automation_disabled", "UI automation is not enabled for this session."));
    }
    if !vault_open {
        return Err(
            refusal("startup_blocked", "A vault must be open before automation can drive the shell."),
        );
    }
    match action {
        UiAutomationAction::SwitchTool { tool } => match parse_tool_mode(tool.as_str()) {
            Some(m) => Ok(AutomationStep::SwitchTool(m)),
            None => {
                let mut message = String::from_str("Unknown tool '");
                message.append(tool.as_str());
                message.append("'.");
                Err(AutomationRefusal { result_code: String::from_str("invalid_arguments"), message })
            },
        },
        UiAutomationAction::FocusSearch => Ok(AutomationStep::FocusSearch),
        UiAutomationAction::SelectNote { path } => {
            if editor_dirty {
                Err(refusal("dirty_guard_blocked", "Dirty note guard blocked note selection."))
            } else {
                Ok(AutomationStep::SelectNote(path.clone()))
            }
        },
        UiAutomationAction::ClearSelection => {
            if editor_dirty {
                Err(refusal("dirty_guard_blocked", "Dirty note guard blocked selection clear."))
            } else {
                Ok(AutomationStep::ClearSelection)
            }
        },
        UiAutomationAction::SetEditorMode { mode } => match parse_editor_mode(mode.as_str()) {
            None => Err(refusal("invalid_arguments", "Unknown editor mode.")),
            Some(m) => {
                if !has_active_note {
                    Err(refusal("unsupported_context", "No active note is loaded."))
                } else {
                    Ok(AutomationStep::SetEditorMode(m))
                }
            },
        },
        UiAutomationAction::OpenSettingsSection { section } => match parse_settings_section(
            section.as_str(),
        ) {
            Some(s) => Ok(AutomationStep::OpenSettingsSection(s)),
            None => Err(refusal("invalid_arguments", "Unknown settings section.")),
        },
        UiAutomationAction::SetGraphScope { scope } => match parse_graph_scope(scope.as_str()) {
            Some(g) => Ok(AutomationStep::SetGraphScope(g)),
            None => Err(refusal("invalid_arguments", "Unknown graph scope.")),
        },
        UiAutomationAction::SetGraphDepth { depth } => {
            if *depth == 0 {
                Err(refusal("invalid_arguments", "Graph depth must be at least 1."))
            } else {
                Ok(AutomationStep::SetGraphDepth(*depth))
            }
        },
        UiAutomationAction::ResetGraph => Ok(AutomationStep::ResetGraph),
    }
}

/// The tool an accepted step leaves active (`None`: the tool is kept).
pub open spec fn step_tool_spec(s: AutomationStep) -> Option<ToolMode> {
    match s {
        AutomationStep::SwitchTool(m) => Some(m),
        AutomationStep::FocusSearch => Some(ToolMode::Search),
        AutomationStep::SelectNote(_) => Some(ToolMode::Notes),
        AutomationStep::OpenSettingsSection(_) => Some(ToolMode::Settings),
        AutomationStep::SetGraphScope(_) | AutomationStep::SetGraphDepth(_)
        | AutomationStep::ResetGraph => Some(ToolMode::Graph),
        AutomationStep::ClearSelection | AutomationStep::SetEditorMode(_) => None,
    }
}

/// The tool an accepted step leaves active (`None`: the tool is kept).
pub fn step_tool(step: &AutomationStep) -> (r: Option<ToolMode>)
    ensures
        r == step_tool_spec(*step),
{
    match step {
        AutomationStep::SwitchTool(m) => Some(*m),
        AutomationStep::FocusSearch => Some(ToolMode::Search),
        AutomationStep::SelectNote(_) => Some(ToolMode::Notes),
        AutomationStep::OpenSettingsSection(_) => Some(ToolMode::Settings),
        AutomationStep::SetGraphScope(_) | AutomationStep::SetGraphDepth(_)
        | AutomationStep::ResetGraph => Some(ToolMode::Graph),
        AutomationStep::ClearSelection | AutomationStep::SetEditorMode(_) => None,
    }
}

/// The refusal when the editor cannot switch to the requested mode.
pub fn editor_mode_unavailable() -> (r: AutomationRefusal)
    ensures
        r.result_code@ == "unsupported_context"@,
        r.message@ == "Requested editor mode is unavailable for the active note."@,
{
    refusal("unsupported_context", "Requested editor mode is unavailable for the active note.")
}

/// The result reported for an action: a snapshot is attached exactly when
/// the action succeeded, and a success comes with the snapshot taken after
/// it.
pub fn automation_result(
    action_id: &str,
    ok: bool,
    result_code: &str,
    message: Option<String>,
    snapshot: Option<UiAutomationSnapshot>,
) -> (r: UiAutomationActionResult)
    requires
        ok ==> snapshot is Some,
    ensures
        r.ok <==> r.snapshot is Some,
        r.action_id@ == action_id@,
        r.ok == ok,
        r.result_code@ == result_code@,
        r.message == message,
        r.snapshot == (if ok {
            snapshot
        } else {
            None
        }),
{
    UiAutomationActionResult {
        action_id: String::from_str(action_id),
        ok,
        result_code: String::from_str(result_code),
        message,
        snapshot: if ok {
            snapshot
        } else {
            None
        },
    }
}

/// The result of an automation action from its plan. A refused action is
/// reported as not done, with the refusal's code and message and no
/// snapshot; an accepted action, once done, as done with code `ok`, no
/// message, and `snapshot_after`, the snapshot taken after doing it.
pub fn automation_outcome(
    action: &UiAutomationAction,
    planned: Result<AutomationStep, AutomationRefusal>,
    snapshot_after: Option<UiAutomationSnapshot>,
) -> (r: UiAutomationActionResult)
    requires
        planned is Ok ==> snapshot_after is Some,
    ensures
        r.action_id@ == action_id_of(*action),
        r.ok <==> r.snapshot is Some,
        r.ok ==> r.result_code@ == "ok"@,
        match planned {
            Err(f) => !r.ok && r.result_code == f.result_code && r.message == Some(f.message)
                && r.snapshot is None,
            Ok(_) => r.ok && r.message is None && r.snapshot == snapshot_after,
        },
{
    let id = ui_automation_action_id(action);
    match planned {
        Err(f) => UiAutomationActionResult {
            action_id: String::from_str(id),
            ok: false,
            result_code: f.result_code,
            message: Some(f.message),
            snapshot: None,
        },
        Ok(_) => {
            proof {
                reveal_strlit("ok");
            }
            UiAutomationActionResult {
                action_id: String::from_str(id),
                ok: true,
                result_code: String::from_str("ok"),
                message: None,
                snapshot: snapshot_after,
            }
        },
    }
}

/// The automation description: versions, whether automation is available
/// (and why not), the catalog and the result codes.
pub fn describe_ui_automation(gate: (bool, Option<&'static str>)) -> (r: UiAutomationDescription)
    ensures
        r.protocol_version == 1,
        r.snapshot_schema_version == 1,
        r.action_catalog_version == 1,
        r.available == gate.0,
        match gate.1 {
            Some(reason) => r.unavailable_reason matches Some(s) && s@ == reason@,
            None => r.unavailable_reason is None,
        },
        r.requires_config_opt_in,
        r.requires_runtime_token,
        r.actions@.len() == catalog().len(),
        forall|i: int| 0 <= i < r.actions@.len() ==> entry_view(#[trigger] r.actions@[i]) == catalog()[i],
        string_views(r.result_codes@) == result_code_list(),
{
    UiAutomationDescription {
        protocol_version: UI_AUTOMATION_PROTOCOL_VERSION,
        snapshot_schema_version: UI_AUTOMATION_SNAPSHOT_SCHEMA_VERSION,
        action_catalog_version: UI_AUTOMATION_ACTION_CATALOG_VERSION,
        available: gate.0,
        unavailable_reason: match gate.1 {
            Some(reason) => Some(String::from_str(reason)),
            None => None,
        },
        requires_config_opt_in: true,
        requires_runtime_token: true,
        actions: ui_automation_action_catalog(),
        result_codes: ui_automation_result_codes(),
    }
}

/// What the window reports in a snapshot, before the property list is made.
#[derive(Debug, Clone)]
pub struct AutomationSnapshotInput {
    pub active_tool: String,
    pub active_content: String,
    pub startup_state: String,
    pub inspector_visible: bool,
    pub active_note_path: Option<String>,
    pub editor_mode: Option<String>,
    pub editor_dirty: bool,
    pub search_query: Option<String>,
    pub graph_scope: Option<String>,
    pub graph_depth: Option<u8>,
    pub graph_selected_path: Option<String>,
    pub settings_section: Option<String>,
    pub automation_active: bool,
}

/// An optional property: present only when the value is.
pub open spec fn opt_prop(key: Seq<char>, v: Option<String>) -> Seq<(Seq<char>, Seq<char>)> {
    match v {
        Some(x) => seq![(key, x@)],
        None => Seq::empty(),
    }
}

/// The property list of a snapshot: the always-present facts, then each
/// optional one that is known.
pub open spec fn snapshot_properties(i: AutomationSnapshotInput) -> Seq<(Seq<char>, Seq<char>)> {
    seq![
        ("tool.active"@, i.active_tool@),
        ("content.active"@, i.active_content@),
        ("startup.state"@, i.startup_state@),
        ("inspector.visible"@, bool_text(i.inspector_visible)),
        ("editor.dirty"@, bool_text(i.editor_dirty)),
        ("automation.active"@, bool_text(i.automation_active)),
    ] + opt_prop("note.path"@, i.active_note_path) + opt_prop("editor.mode"@, i.editor_mode)
        + opt_prop("search.query"@, i.search_query) + opt_prop("graph.scope"@, i.graph_scope)
        + match i.graph_depth {
        Some(d) => seq![("graph.depth"@, decimal(d as nat))],
        None => Seq::empty(),
    } + opt_prop("graph.selected_path"@, i.graph_selected_path) + opt_prop(
        "settings.section"@,
        i.settings_section,
    )
}

/// The text of a flag.
pub open spec fn bool_text(b: bool) -> Seq<char> {
    if b {
        "true"@
    } else {
        "false"@
    }
}

/// The views of a property list.
pub open spec fn property_views(v: Seq<(String, String)>) -> Seq<(Seq<char>, Seq<char>)> {
    v.map_values(|p: (String, String)| (p.0@, p.1@))
}

fn bool_string(b: bool) -> (r: String)
    ensures
        r@ == bool_text(b),
{
    if b {
        String::from_str("true")
    } else {
        String::from_str("false")
    }
}

fn push_prop(props: &mut Vec<(String, String)>, key: &str, value: String)
    ensures
        property_views(final(props)@) == property_views(old(props)@).push((key@, value@)),
{
    let ghost before = property_views(props@);
    props.push((String::from_str(key), value));
    assert(property_views(props@) =~= before.push((key@, value@)));
}

fn push_opt_prop(props: &mut Vec<(String, String)>, key: &str, value: &Option<String>)
    ensures
        property_views(final(props)@) == property_views(old(props)@) + opt_prop(key@, *value),
{
    match value {
        Some(v) => {
            push_prop(props, key, v.clone());
            assert(property_views(props@) =~= property_views(old(props)@) + opt_prop(key@, *value));
        },
        None => {
            assert(property_views(props@) =~= property_views(old(props)@) + opt_prop(key@, *value));
        },
    }
}

/// Builds a snapshot: every field as given, plus the property list.
pub fn build_ui_automation_snapshot(input: AutomationSnapshotInput) -> (r: UiAutomationSnapshot)
    ensures
        r.active_tool == input.active_tool,
        r.active_content == input.active_content,
        r.startup_state == input.startup_state,
        r.inspector_visible == input.inspector_visible,
        r.active_note_path == input.active_note_path,
        r.editor_mode == input.editor_mode,
        r.editor_dirty == input.editor_dirty,
        r.search_query == input.search_query,
        r.graph_scope == input.graph_scope,
        r.graph_depth == input.graph_depth,
        r.graph_selected_path == input.graph_selected_path,
        r.settings_section == input.settings_section,
        r.automation_active == input.automation_active,
        property_views(r.properties@) == snapshot_properties(input),
{
    let mut props: Vec<(String, String)> = Vec::new();
    push_prop(&mut props, "tool.active", input.active_tool.clone());
    push_prop(&mut props, "content.active", input.active_content.clone());
    push_prop(&mut props, "startup.state", input.startup_state.clone());
    push_prop(&mut props, "inspector.visible", bool_string(input.inspector_visible));
    push_prop(&mut props, "editor.dirty", bool_string(input.editor_dirty));
    push_prop(&mut props, "automation.active", bool_string(input.automation_active));
    let ghost fixed = property_views(props@);
    push_opt_prop(&mut props, "note.path", &input.active_note_path);
    push_opt_prop(&mut props, "editor.mode", &input.editor_mode);
    push_opt_prop(&mut props, "search.query", &input.search_query);
    push_opt_prop(&mut props, "graph.scope", &input.graph_scope);
    let ghost before_depth = property_views(props@);
    match input.graph_depth {
        Some(d) => {
            push_prop(&mut props, "graph.depth", u64_to_string(d as u64));
        },
        None => {},
    }
    push_opt_prop(&mut props, "graph.selected_path", &input.graph_selected_path);
    push_opt_prop(&mut props, "settings.section", &input.settings_section);
    assert(property_views(props@) =~= snapshot_properties(input));
    UiAutomationSnapshot {
        active_tool: input.active_tool,
        active_content: input.active_content,
        startup_state: input.startup_state,
        inspector_visible: input.inspector_visible,
        active_note_path: input.active_note_path,
        editor_mode: input.editor_mode,
        editor_dirty: input.editor_dirty,
        search_query: input.search_query,
        graph_scope: input.graph_scope,
        graph_depth: input.graph_depth,
        graph_selected_path: input.graph_selected_path,
        settings_section: input.settings_section,
        automation_active: input.automation_active,
        properties: props,
    }
}

/// What the graph side panel shows: scope, depth, load state and details.
#[derive(Debug, Clone, PartialEq, Eq)]
pub struct GraphPanelState {
    pub scope: GraphScope,
    pub depth: u32,
    pub load_state: crate::ui::graph_view::GraphLoadState,
    pub details: crate::ui::graph_view::GraphContextDetails,
}

/// The graph side panel's state for a scene with the given load state and
/// details.
pub fn graph_panel_state(
    scope: GraphScope,
    depth: u32,
    load_state: crate::ui::graph_view::GraphLoadState,
    details: crate::ui::graph_view::GraphContextDetails,
) -> (r: GraphPanelState)
    ensures
        r == (GraphPanelState { scope, depth, load_state, details }),
{
    GraphPanelState { scope, depth, load_state, details }
}

/// The complaint when the neighborhood graph is asked for with nothing
/// selected.
pub fn neighborhood_without_selection_message() -> (r: &'static str)
    ensures
        r@ == "Select a node to focus the graph"@,
{
    "Select a node to focus the graph"
}

/// What a graph load asks the daemon for.
#[derive(Debug, PartialEq, Eq)]
pub enum GraphRequest {
    /// The whole vault's layout, for a canvas of this size.
    VaultLayout { width: u32, height: u32 },
    /// The neighbours of `path` up to `depth` links away.
    Neighbors { path: String, depth: u32 },
    /// Nothing to ask: the graph shows this state with no layout kept.
    Show(GraphLoadState),
}

/// The request a graph load makes: the vault scope asks for the vault's
/// layout on a 1200 by 800 canvas; the neighborhood scope asks for the
/// selected note's neighbours at the given depth, and with nothing selected
/// asks nothing and shows an error to select a node.
pub fn plan_graph_request(scope: GraphScope, selected_path: Option<String>, depth: u32) -> (r: GraphRequest)
    ensures
        match scope {
            GraphScope::Vault => r == GraphRequest::VaultLayout { width: 1200, height: 800 },
            GraphScope::Neighborhood => match selected_path {
                Some(p) => r == GraphRequest::Neighbors { path: p, depth },
                None => r matches GraphRequest::Show(GraphLoadState::Error(m)) && m@
                    == "Select a node to focus the graph"@,
            },
        },
{
    match scope {
        GraphScope::Vault => GraphRequest::VaultLayout { width: 1200, height: 800 },
        GraphScope::Neighborhood => match selected_path {
            Some(p) => GraphRequest::Neighbors { path: p, depth },
            None => GraphRequest::Show(
                GraphLoadState::Error(String::from_str(neighborhood_without_selection_message())),
            ),
        },
    }
}

} // verus!
