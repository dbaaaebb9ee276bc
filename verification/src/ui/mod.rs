//! Interface logic: what the window, panels and editors decide, apart from
//! the widgets that show it.
pub mod automation_protocol;
pub mod automation_state;
pub mod block_editor;
pub mod context_panel;
pub mod editor;
pub mod editor_commands;
pub mod explorer;
pub mod frontmatter;
pub mod graph_view;
pub mod note_types;
pub mod request_state;
pub mod search_view;
pub mod settings_view;
pub mod shell_state;
pub mod tool_rail;
pub mod window;
