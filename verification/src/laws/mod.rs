//! Properties that relate several operations of the library, proved over their specifications.

pub mod rect2i;
pub mod signal_future;
pub mod string_bytes;
pub mod string_chars;
pub mod text;
pub mod bitfield;
pub mod operators;
pub mod vectors;
