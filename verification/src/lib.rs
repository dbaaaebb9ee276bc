//! Verified core of the knotty desktop client for the `knotd` notes daemon.
use vstd::prelude::*;

pub mod cli;
pub mod client;
pub mod config;
pub mod paths;
pub mod runtime_contract;
pub mod text;
pub mod ui;

verus! {

} // verus!
