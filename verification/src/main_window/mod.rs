//! The main-window app: the source of truth for a set of named task lists,
//! with settings, list management and the link to the tray service.
pub mod actions;
pub mod keys;
pub mod laws;
pub mod link;
pub mod lists;
pub mod message;
pub mod platform;
pub mod settings;
pub mod state;
pub mod sync;
pub mod update;
