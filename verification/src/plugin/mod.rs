//! The plugin that lives in the application and turns requests into scripts for its webview.

pub mod actions;
pub mod element;
pub mod error;
pub mod eval;
pub mod events;
pub mod find;
pub mod page;
pub mod picture;
pub mod requests;
pub mod state;
pub mod window;
