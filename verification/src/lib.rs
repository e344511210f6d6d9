//! A small configuration store backend.
//!
//! The store keeps one unstructured text value in a fixed dotfile under the
//! process's home directory. This crate holds the store's logic: resolving
//! the dotfile path, stripping whitespace from configuration text on read,
//! classifying failures, and the laws that relate the store's operations.
//! The surrounding shell performs the actual file reads and writes and hands
//! plain strings in and out.

pub mod model;
pub mod store;
pub mod text;

pub use store::config_path;
pub use store::resolve_config_path;
pub use store::ConfigError;
pub use text::is_whitespace_char;
pub use text::strip_whitespace;
