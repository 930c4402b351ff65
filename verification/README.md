# godot_core

Godot's built-in value types with integer components, written in Verus and proved against
their contracts:

- `src/vectors/`: `Vector2i`, `Vector3i`, `Vector4i`, their axes, operators, snapping and
  clamping, with the per-component arithmetic in `component.rs`;
- `src/rect2i.rs`: `Rect2i` and its geometry (intersection, merge, growth, containment);
- `src/rid.rs`, `src/rid_tags.rs`: resource IDs;
- `src/error.rs`: engine error codes and their mapping to `Result`;
- `src/signal_future.rs`: the state machine behind signal futures;
- `src/string_bytes.rs`, `src/string_chars.rs`, `src/node_path.rs`,
  `src/string_name_order.rs`: the decisions made when building Godot strings;
- `src/bitfield.rs`, `src/text.rs`: the text that values are printed as;
- `src/laws/`: properties that relate several functions, stated and proved as lemmas.

`app/` holds what the verifier does not see: serde support for the value types, padding
through `std::fmt`, and the thread-safe plumbing of signal futures. `tests/` runs the library
on concrete values.
