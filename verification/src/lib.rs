//! Inspection of a neural-network model's declared signature, and the
//! decisions around one zero-filled trial run of it.
//!
//! The inference runtime itself stays outside: this library works on the
//! plain values that describe a loaded model and on what a run handed back,
//! and says which text goes to which stream and how the program ends.

pub mod cli;
pub mod inference;
pub mod inspector;
pub mod shape;
pub mod signature;
pub mod text;
