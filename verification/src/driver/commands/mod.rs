//! The commands on a session, each with its first step.

pub mod element;
pub mod find;
pub mod navigation;
pub mod page;
pub mod replies;
pub mod window;
