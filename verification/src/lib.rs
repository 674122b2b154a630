use vstd::prelude::*;

pub mod app;
pub mod main_window;
pub mod models;
pub mod starter;
pub mod text;
pub mod theme;

verus! {
}
