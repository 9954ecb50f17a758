//! Validation of protocol buffer values against the constraint rules of
//! `protoc-gen-validate` (the `validate.proto` annotations).
//!
//! Each kind of rule set (numbers, strings, bytes, enums, durations,
//! timestamps, `Any`, repeated fields, maps, messages and oneofs) has a
//! validator whose contract states, over a mathematical model of the value
//! and the rules, exactly when the value is accepted and which error is
//! reported otherwise.
pub mod errors;
pub mod formats;
pub mod number;
pub mod pattern;
pub mod text;
pub mod wkt;
pub mod duration;
pub mod timestamp;
pub mod string;
pub mod bytes;
pub mod scalars;
pub mod rules;
pub mod message;
pub mod field;
pub mod secs_and_nanos;
pub mod builder;
pub mod laws;
