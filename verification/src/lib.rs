//! The document store behind a desktop to-do list.
//!
//! The whole application state, categories and lists of tasks, lives in one
//! JSON document on disk. This crate holds everything about that document
//! that can be decided without touching the disk: where it lives below the
//! home directory, how the state maps onto JSON, and what a load yields when
//! the file is missing, unreadable or malformed.
//!
//! - [`model`]: the application data and its mathematical view.
//! - [`path`]: the place of the document below the home directory.
//! - [`json`]: JSON values of `serde_json`, read as trees, and what is
//!   assumed of the `serde_json` functions that the crate calls.
//! - [`schema`]: the mapping between application data and JSON, in both
//!   directions, with the proof that writing and reading back loses nothing.
//! - [`store`]: load and save, as functions of what was found on disk.

pub mod json;
pub mod model;
pub mod path;
pub mod schema;
pub mod store;
