//! Unread notifications: polling, consent to alerts, delivery and display.

pub mod account;
pub mod batches;
pub mod controller;
pub mod delivery;
pub mod display_laws;
pub mod gate;
pub mod laws;
pub mod model;
pub mod panel;
pub mod polling;
pub mod polls;
pub mod read_laws;
pub mod registry;
pub mod selection;
pub mod smoke;
pub mod state_laws;
