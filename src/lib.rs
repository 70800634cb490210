//! The generic iteration protocol of a dynamic-language runtime: obtaining an
//! iterator from a value, advancing it one step at a time, and draining it.
//!
//! A single cursor type walks every built-in container kind (numeric ranges,
//! byte strings, mutable byte buffers and generic ordered sequences).
pub mod container;
pub mod laws;
pub mod objiter;
