//! The context panel beside the content: its heading and page per tool, and
//! how the explorer selection is named.
use vstd::prelude::*;
use vstd::string::*;
use crate::text::{chars_of, string_from_chars};
use crate::ui::explorer::{selection_path, ExplorerSelection};
use crate::ui::graph_view::{base_name, basename};
use crate::ui::tool_rail::ToolMode;

verus! {

/// The heading and the page the context panel shows for a tool.
pub open spec fn panel_for(mode: ToolMode) -> (Seq<char>, Seq<char>) {
    match mode {
        ToolMode::Notes => ("Notes"@, "notes"@),
        ToolMode::Search => ("Search"@, "search"@),
        ToolMode::Graph => ("Graph"@, "graph"@),
        ToolMode::Settings => ("Settings"@, "settings"@),
    }
}

/// The heading and the page the context panel shows for a tool.
pub fn context_panel_page(mode: ToolMode) -> (r: (&'static str, &'static str))
    ensures
        (r.0@, r.1@) == panel_for(mode),
{
    match mode {
        ToolMode::Notes => ("Notes", "notes"),
        ToolMode::Search => ("Search", "search"),
        ToolMode::Graph => ("Graph", "graph"),
        ToolMode::Settings => ("Settings", "settings"),
    }
}

/// How the selected item is named: the last component of its path, or
/// `root` when that is empty.
pub fn selected_display_name(selection: &ExplorerSelection) -> (r: String)
    ensures
        r@ == if base_name(selection_path(*selection)).len() == 0 {
            "root"@
        } else {
            base_name(selection_path(*selection))
        },
{
    let name = basename(&chars_of(selection.path()));
    if name.len() == 0 {
        String::from_str("root")
    } else {
        string_from_chars(&name)
    }
}

} // verus!
