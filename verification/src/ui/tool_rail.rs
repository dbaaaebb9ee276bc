//! The tools the left rail switches between.
use vstd::prelude::*;

verus! {

/// A tool of the application shell.
#[derive(Debug, Clone, Copy, PartialEq, Eq, Structural)]
pub enum ToolMode {
    Notes,
    Search,
    Graph,
    Settings,
}

} // verus!
