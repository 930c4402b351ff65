//! Godot's built-in value types with integer components, verified: integer vectors, `Rect2i`,
//! resource IDs, engine error codes, and the state machine behind signal futures.

pub mod bitfield;
pub mod enums;
pub mod error;
pub mod laws;
pub mod node_path;
pub mod rect2i;
pub mod rid;
pub mod rid_tags;
pub mod signal_future;
pub mod string_bytes;
pub mod string_chars;
pub mod string_name_order;
pub mod text;
pub mod typed_func;
pub mod vectors;
