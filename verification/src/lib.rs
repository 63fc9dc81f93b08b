//! A configuration store for a window manager: one snapshot of settings,
//! read by many threads, swapped as a whole on reload, and kept on disk as
//! JSON text.
//!
//! - `config`: the snapshot and the built-in settings.
//! - `store`: the snapshot in effect, behind a reader-writer lock.
//! - `json`: JSON values as plain data; reading and writing of JSON text,
//!   which is the `rustc-serialize` crate's work and is taken on trust.
//! - `screen`: which texts are handed to that crate at all.
//! - `codec`: which JSON object holds a snapshot, and which snapshot a
//!   JSON object holds.
//! - `startup`: what to run with, and what to write back, given what the
//!   settings file held.
//!
//! The library touches no file. Its caller reads the settings file, hands
//! the text to `Config::initialize`, and carries out the repair that comes
//! back.

pub mod codec;
pub mod config;
pub mod json;
pub mod screen;
pub mod startup;
pub mod store;

pub use codec::DecodeError;
pub use codec::Field;
pub use config::Config;
pub use json::JsonValue;
pub use json::ParseError;
pub use startup::LoadError;
pub use startup::Repair;
pub use startup::Startup;
pub use store::ConfigLock;
