//! Marshalling rules for the interfaces of the sanitizer runtimes.
//!
//! The runtimes (address, leak, memory, thread and data-flow sanitizer) speak
//! a C ABI: integers that stand for booleans, addresses that may be null,
//! NUL-terminated byte strings, and formatting calls that report how many
//! bytes they would have needed. This crate holds the rules that turn those
//! replies into checked values, and the decisions a caller takes between two
//! calls. It never calls a runtime itself.
pub mod format;
pub mod reply;
pub mod text;
pub mod trace;
pub mod tsan;
