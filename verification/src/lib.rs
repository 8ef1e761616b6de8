//! Locates game state inside a process image by signature scanning, follows
//! pointer chains to the tracked fields, and turns the sampled values into
//! start, split and reset decisions for a run timer.

pub mod addresses;
pub mod engine;
pub mod fields;
pub mod memory;
pub mod pattern;
pub mod reader;
pub mod resolver;
pub mod sampler;
pub mod settings;
pub mod signatures;
pub mod watcher;
pub mod zone;
