//! A local task-orchestration store: goals containing tasks, with explicit
//! contracts, dependency edges and lifecycle states, persisted in an
//! embedded database and safe against racing command invocations.

use vstd::prelude::*;

pub mod clock;
pub mod commands;
pub mod db;
pub mod engine;
pub mod errors;
pub mod id;
pub mod models;
pub mod order;
pub mod similar;
pub mod state;
pub mod strutil;

verus! {

} // verus!
