//! Which surface each part of the window shows, as a function of the active
//! tool and whether a note is selected.
use vstd::prelude::*;
use crate::ui::tool_rail::ToolMode;

verus! {

/// What the context panel shows.
#[derive(Debug, Clone, Copy, PartialEq, Eq, Structural)]
pub enum ContextMode {
    Notes,
    Search,
    Graph,
    Settings,
    Empty,
}

/// What the main content area shows.
#[derive(Debug, Clone, Copy, PartialEq, Eq, Structural)]
pub enum ContentMode {
    Welcome,
    Note,
    Search,
    Graph,
    Settings,
    Error,
}

/// What the inspector shows.
#[derive(Debug, Clone, Copy, PartialEq, Eq, Structural)]
pub enum InspectorMode {
    Hidden,
    Details,
    Settings,
}

/// The routing state of the shell.
#[derive(Debug, Clone, Copy, PartialEq, Eq, Structural)]
pub struct ShellState {
    pub tool_mode: ToolMode,
    pub has_selected_note: bool,
}

/// The context panel's surface for a tool.
pub open spec fn context_for(t: ToolMode) -> ContextMode {
    match t {
        ToolMode::Notes => ContextMode::Notes,
        ToolMode::Search => ContextMode::Search,
        ToolMode::Graph => ContextMode::Graph,
        ToolMode::Settings => ContextMode::Settings,
    }
}

/// The content surface for a tool, given whether a note is selected.
pub open spec fn content_for(t: ToolMode, selected: bool) -> ContentMode {
    match t {
        ToolMode::Notes => if selected {
            ContentMode::Note
        } else {
            ContentMode::Welcome
        },
        ToolMode::Search => ContentMode::Search,
        ToolMode::Graph => ContentMode::Graph,
        ToolMode::Settings => ContentMode::Settings,
    }
}

/// The inspector's surface for a tool.
pub open spec fn inspector_for(t: ToolMode) -> InspectorMode {
    match t {
        ToolMode::Notes | ToolMode::Graph => InspectorMode::Details,
        ToolMode::Search => InspectorMode::Hidden,
        ToolMode::Settings => InspectorMode::Settings,
    }
}

impl ShellState {
    /// Switches to tool `mode`; the note selection is kept.
    pub fn select_tool(&mut self, mode: ToolMode)
        ensures
            *final(self) == with_tool(*old(self), mode),
    {
        self.tool_mode = mode;
    }

    /// Records whether a note is selected; the tool is kept.
    pub fn set_note_selected(&mut self, selected: bool)
        ensures
            *final(self) == with_selection(*old(self), selected),
    {
        self.has_selected_note = selected;
    }

    /// The active tool.
    pub fn tool_mode(&self) -> (r: ToolMode)
        ensures
            r == self.tool_mode,
    {
        self.tool_mode
    }

    /// What the context panel shows.
    pub fn context_mode(&self) -> (r: ContextMode)
        ensures
            r == context_for(self.tool_mode),
    {
        match self.tool_mode {
            ToolMode::Notes => ContextMode::Notes,
            ToolMode::Search => ContextMode::Search,
            ToolMode::Graph => ContextMode::Graph,
            ToolMode::Settings => ContextMode::Settings,
        }
    }

    /// What the content area shows.
    pub fn content_mode(&self) -> (r: ContentMode)
        ensures
            r == content_for(self.tool_mode, self.has_selected_note),
    {
        match self.tool_mode {
            ToolMode::Notes => {
                if self.has_selected_note {
                    ContentMode::Note
                } else {
                    ContentMode::Welcome
                }
            },
            ToolMode::Search => ContentMode::Search,
            ToolMode::Graph => ContentMode::Graph,
            ToolMode::Settings => ContentMode::Settings,
        }
    }

    /// What the inspector shows.
    pub fn inspector_mode(&self) -> (r: InspectorMode)
        ensures
            r == inspector_for(self.tool_mode),
    {
        match self.tool_mode {
            ToolMode::Notes | ToolMode::Graph => InspectorMode::Details,
            ToolMode::Search => InspectorMode::Hidden,
            ToolMode::Settings => InspectorMode::Settings,
        }
    }
}

impl Default for ShellState {
    /// The notes tool with no note selected.
    fn default() -> (r: Self)
        ensures
            r.tool_mode == ToolMode::Notes,
            !r.has_selected_note,
    {
        ShellState { tool_mode: ToolMode::Notes, has_selected_note: false }
    }
}

/// The note view is shown exactly when the notes tool is active and a note
/// is selected; otherwise the content area never shows a note.
pub proof fn law_note_content_needs_notes_tool_and_selection(s: ShellState)
    ensures
        content_for(s.tool_mode, s.has_selected_note) == ContentMode::Note <==> (s.tool_mode
            == ToolMode::Notes && s.has_selected_note),
{
}

/// Every surface is routed to the same tool: context panel, content area
/// and inspector never disagree about which tool is active (the inspector
/// is hidden only for search).
pub proof fn law_surfaces_follow_tool(s: ShellState)
    ensures
        s.tool_mode != ToolMode::Notes ==> content_for(s.tool_mode, s.has_selected_note)
            == content_for(s.tool_mode, !s.has_selected_note),
        context_for(s.tool_mode) != ContextMode::Empty,
        content_for(s.tool_mode, s.has_selected_note) != ContentMode::Error,
        inspector_for(s.tool_mode) == InspectorMode::Hidden <==> s.tool_mode == ToolMode::Search,
        (context_for(s.tool_mode) == ContextMode::Settings) == (content_for(
            s.tool_mode,
            s.has_selected_note,
        ) == ContentMode::Settings),
        (context_for(s.tool_mode) == ContextMode::Settings) == (inspector_for(s.tool_mode)
            == InspectorMode::Settings),
{
}

/// The state after switching to tool `t`.
pub open spec fn with_tool(s: ShellState, t: ToolMode) -> ShellState {
    ShellState { tool_mode: t, has_selected_note: s.has_selected_note }
}

/// The state after recording the note selection `selected`.
pub open spec fn with_selection(s: ShellState, selected: bool) -> ShellState {
    ShellState { tool_mode: s.tool_mode, has_selected_note: selected }
}

/// Switching tools and changing the note selection do not interfere: doing
/// them in either order gives the same state, a second switch overrides the
/// first, and switching away and back restores the state.
pub proof fn law_tool_and_selection_commute(s: ShellState, t: ToolMode, u: ToolMode, selected: bool)
    ensures
        with_selection(with_tool(s, t), selected) == with_tool(with_selection(s, selected), t),
        with_tool(with_tool(s, t), u) == with_tool(s, u),
        with_tool(with_tool(s, t), s.tool_mode) == s,
        with_selection(with_selection(s, selected), s.has_selected_note) == s,
{
}

} // verus!
