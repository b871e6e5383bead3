//! What holds of the driver and the plugin as a whole.

pub mod actions;
pub mod arguments;
pub mod commands;
pub mod elements;
pub mod files;
pub mod input;
pub mod locators;
mod members;
pub mod opening;
pub mod posting;
pub mod relay;
pub mod replies;
pub mod running;
pub mod scripts;
pub mod sessions;
pub mod shapes;
pub mod texts;
pub mod typing;
pub mod values;
