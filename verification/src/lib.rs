//! Harp: a small persistent key-value registry addressed by a two-level
//! namespace (section, register), together with the relativity rules that
//! derive section names from editor context and the interactive resolve
//! protocol that picks a register via sequential keypresses.
//!
//! The store itself is pure in-memory data; reading and writing the backing
//! document is left to the host around this library.

pub mod access;
pub mod commands;
pub mod digits;
pub mod entry;
pub mod errors;
pub mod expand;
pub mod laws;
pub mod preview;
pub mod prompt;
pub mod protocol;
pub mod resolve;
pub mod selection;
pub mod store;
pub mod text;
pub mod typed;
pub mod util;
