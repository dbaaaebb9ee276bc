//! The block model of a note: markdown read into discrete blocks, each shown
//! as a widget of its own.
pub mod parser;
pub mod renderer;
pub mod types;
