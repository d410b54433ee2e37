//! Creation of pull requests: the form, its durable admission and the dialog.

pub mod dialog;
pub mod dialog_laws;
pub mod form;
pub mod journal;
pub mod panel;
pub mod panel_laws;
pub mod store_laws;
