//! Build-time source generation that wires user-declared error and state
//! types into a web framework's response and request-handling abstractions.
//!
//! The crate reads structural metadata from a type declaration (enum
//! variants or struct fields, each carrying marker annotations such as
//! `give(503)` or `rate(5)`), or a flat keyword token sequence supplied at a
//! call site, validates it against shape constraints, and emits source
//! fragments: bidirectional code/variant conversions, responder adapters,
//! per-code handler functions, quota functions and state bindings.

pub mod app_error;
pub mod casing;
pub mod compose;
pub mod error;
pub mod extract;
pub mod grammar;
pub mod mapping;
pub mod model;
pub mod state;
pub mod synth;
pub mod text;
pub mod validate;
