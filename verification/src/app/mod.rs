pub mod actions;
pub mod commands;
pub mod ipc;
pub mod snapshot;
pub mod state;
pub mod tray;
pub mod message;
pub mod sync;
pub mod update;
pub mod files;
pub mod laws;
