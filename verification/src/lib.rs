//! A local, single-user credential store driven from a terminal menu.
//!
//! The crate holds the record store and the screen controller; reading keys,
//! drawing and touching the file system are left to the program around it.

pub mod entry;
pub mod path;
pub mod prompt;
pub mod session;
pub mod store;
pub mod table;
