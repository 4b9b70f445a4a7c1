//! Verified core of a screen recorder: capture-source listing, the per-frame
//! crop and row-flip pipeline, and the single-session recording lifecycle.
//!
//! Everything here works on plain values. The operating system's capture
//! interface, the encoder and the threads that run them live with the caller,
//! which feeds their outcomes to the functions of this crate.

pub mod cli;
pub mod error;
pub mod frame;
pub mod recorder;
pub mod selector;
pub mod session;
pub mod sources;
pub mod text;
pub mod types;
