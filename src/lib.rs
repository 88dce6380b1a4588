//! A bridge that exposes a memory-mapped binary sequence reader through
//! handles, reusable record slots and reusable decode buffers, with every
//! failure reported as a value rather than a panic.

pub mod buffer;
pub mod error;
pub mod laws;
pub mod mapped;
pub mod reader;
pub mod record;
pub mod surface;
