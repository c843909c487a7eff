//! Editing of dependency-declaration manifest files, line by line.
//!
//! Each line of a manifest either declares a named package at a version,
//! holds the same declaration commented out, or is irrelevant text. This
//! crate provides the line/package state model and its transition
//! operations: toggling a declaration between enabled and disabled,
//! updating the declared version, and rendering a line back to text so
//! the file can be reconstructed byte for byte. Reading and writing the
//! file, and parsing raw text into typed lines, are left to callers.

pub mod errors;
pub mod find;
pub mod line;
pub mod log;
pub mod package;

pub use errors::ChangeError;
pub use errors::FindError;
pub use find::find_package;
pub use line::Disabled;
pub use line::Enabled;
pub use line::Line;
pub use log::LogEvent;
pub use package::Package;
