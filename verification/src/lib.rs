//! A verified log-forwarding pipeline core.
//!
//! Reads lines of text, interprets each as JSON, and decides what to emit:
//! nothing on successful delivery, or a structured error record followed by
//! the original line on any failure. The decision logic, the error-record
//! JSON serialization, and the string escaping are verified here; standard
//! input/output and the network call live outside the library.

pub mod escape;
pub mod forward;
pub mod pipeline;
pub mod record;
