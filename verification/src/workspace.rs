//! The local workspace: one checkout, what is going on in it, and its rebase panel.

pub mod command;
pub mod conflict;
pub mod conflict_laws;
pub mod git;
pub mod history;
pub mod lifecycle;
pub mod lifecycle_laws;
pub mod panel;
pub mod panel_laws;
pub mod publish;
pub mod publish_laws;
pub mod rebase;
pub mod rebase_laws;
