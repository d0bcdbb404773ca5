//! Text rendering for structured-message field values.
//!
//! The crate has two parts: a byte-quoting algorithm that turns an arbitrary
//! byte sequence into a double-quoted, escaped text literal, and a value-print
//! dispatch that renders each supported field kind (integers, booleans, text,
//! byte sequences, timestamps) through an append-only output sink.

pub mod bytes_ext;
pub mod chars;
pub mod num;
pub mod print;
pub mod quote;
pub mod sink;
mod strutil;
pub mod timestamp;
