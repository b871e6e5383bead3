//! The server that speaks the WebDriver protocol and forwards commands to the plugin.

pub mod answer;
pub mod commands;
pub mod error;
pub mod locator;
pub mod request;
pub mod script;
pub mod session;
pub mod state;
pub mod step;
pub mod table;
pub mod upload;
