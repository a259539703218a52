//! Writes the manifest of a generated library: a fixed header, then one line
//! per feature.
//!
//! The library plans and does no input or output. Each operation on a
//! [`cargo_toml::CargoToml`] gives a [`plan::Plan`]: the steps to take on the
//! file system, in order, up to the first that fails. [`file_state`] says what
//! the steps do to the file, [`laws`] what follows for the operations, and
//! [`memory_file::MemoryFile`] carries a plan out in memory.

pub mod cargo_toml;
pub mod feature;
pub mod file_state;
pub mod laws;
pub mod memory_file;
pub mod plan;
pub mod utf8;
