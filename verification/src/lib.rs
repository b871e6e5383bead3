//! The verified core of a W3C WebDriver server for Tauri applications.

pub mod document;
pub mod driver;
pub mod json;
pub mod laws;
pub mod outside;
pub mod plugin;
pub mod text;
pub mod value;
