//! What UI automation reports and accepts.
use vstd::prelude::*;

verus! {

/// The observable state of the window.
#[derive(Debug, Clone, PartialEq, Eq)]
pub struct UiAutomationSnapshot {
    pub active_tool: String,
    pub active_content: String,
    pub startup_state: String,
    pub inspector_visible: bool,
    pub active_note_path: Option<String>,
    pub editor_mode: Option<String>,
    pub editor_dirty: bool,
    pub search_query: Option<String>,
    pub graph_scope: Option<String>,
    pub graph_depth: Option<u8>,
    pub graph_selected_path: Option<String>,
    pub settings_section: Option<String>,
    pub automation_active: bool,
    /// The same facts as flat `key = value` pairs, one entry per key.
    pub properties: Vec<(String, String)>,
}

/// The shape of the arguments an action takes.
#[derive(Debug, Clone, PartialEq, Eq)]
pub enum ArgumentSchema {
    /// An object with no members.
    NoArguments,
    /// An object with one required string member limited to `values`.
    StringChoice { name: String, values: Vec<String> },
    /// An object with one required string member.
    Text { name: String },
    /// An object with one required integer member in `minimum..=maximum`.
    IntegerRange { name: String, minimum: i64, maximum: i64 },
}

/// The protocol's description of the automation surface.
#[derive(Debug, Clone, PartialEq, Eq)]
pub struct UiAutomationDescription {
    pub protocol_version: u32,
    pub snapshot_schema_version: u32,
    pub action_catalog_version: u32,
    pub available: bool,
    pub unavailable_reason: Option<String>,
    pub requires_config_opt_in: bool,
    pub requires_runtime_token: bool,
    pub actions: Vec<UiAutomationActionDescription>,
    pub result_codes: Vec<String>,
}

/// One entry of the action catalog.
#[derive(Debug, Clone, PartialEq, Eq)]
pub struct UiAutomationActionDescription {
    pub action_id: String,
    pub title: String,
    pub description: String,
    pub argument_schema: ArgumentSchema,
    pub preconditions: Vec<String>,
    pub result_codes: Vec<String>,
}

/// An action automation can ask the window to perform.
#[derive(Debug, Clone, PartialEq, Eq)]
pub enum UiAutomationAction {
    SwitchTool { tool: String },
    FocusSearch,
    SelectNote { path: String },
    ClearSelection,
    SetEditorMode { mode: String },
    OpenSettingsSection { section: String },
    SetGraphScope { scope: String },
    SetGraphDepth { depth: u8 },
    ResetGraph,
}

/// The outcome of an action, with the state after it when it succeeded.
#[derive(Debug, Clone, PartialEq, Eq)]
pub struct UiAutomationActionResult {
    pub action_id: String,
    pub ok: bool,
    pub result_code: String,
    pub message: Option<String>,
    pub snapshot: Option<UiAutomationSnapshot>,
}

} // verus!
