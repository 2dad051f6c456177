//! Startup orchestration and lifecycle supervision for a docked status-bar
//! application.
//!
//! The library holds the decisions: where configuration comes from, when the
//! process must stop, when background watchers start and how shutdown runs.
//! The work itself (file access, windows, signals) is done by the caller,
//! which feeds the outcomes back as events.
use vstd::prelude::*;

pub mod args;
pub mod config;
pub mod startup;
pub mod shutdown;
pub mod store;
pub mod fullscreen;

verus! {

} // verus!
