//! The command operations: one engine operation per command invocation,
//! returning plain values for the presentation layer to render.

pub mod clean;
pub mod edit;
pub mod goal;
pub mod list;
pub mod ready;
pub mod show;
pub mod status;
pub mod task;
