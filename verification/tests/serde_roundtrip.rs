//! JSON round trips of the integer types, with the field layout that their serde derives in
//! the engine bindings produce.

use godot_core::rect2i::Rect2i;
use godot_core::vectors::{Vector2i, Vector3i, Vector4i};
use serde::ser::{Serialize, SerializeStruct, Serializer};
use serde_json::Value;

struct Json<'a, T>(&'a T);

fn field_i32(value: &Value, name: &str) -> i32 {
    value[name].as_i64().expect("integer field") as i32
}

impl Serialize for Json<'_, Vector2i> {
    fn serialize<S: Serializer>(&self, serializer: S) -> Result<S::Ok, S::Error> {
        let mut s = serializer.serialize_struct("Vector2i", 2)?;
        s.serialize_field("x", &self.0.x)?;
        s.serialize_field("y", &self.0.y)?;
        s.end()
    }
}

impl Serialize for Json<'_, Vector3i> {
    fn serialize<S: Serializer>(&self, serializer: S) -> Result<S::Ok, S::Error> {
        let mut s = serializer.serialize_struct("Vector3i", 3)?;
        s.serialize_field("x", &self.0.x)?;
        s.serialize_field("y", &self.0.y)?;
        s.serialize_field("z", &self.0.z)?;
        s.end()
    }
}

impl Serialize for Json<'_, Vector4i> {
    fn serialize<S: Serializer>(&self, serializer: S) -> Result<S::Ok, S::Error> {
        let mut s = serializer.serialize_struct("Vector4i", 4)?;
        s.serialize_field("x", &self.0.x)?;
        s.serialize_field("y", &self.0.y)?;
        s.serialize_field("z", &self.0.z)?;
        s.serialize_field("w", &self.0.w)?;
        s.end()
    }
}

impl Serialize for Json<'_, Rect2i> {
    fn serialize<S: Serializer>(&self, serializer: S) -> Result<S::Ok, S::Error> {
        let mut s = serializer.serialize_struct("Rect2i", 2)?;
        s.serialize_field("position", &Json(&self.0.position))?;
        s.serialize_field("size", &Json(&self.0.size))?;
        s.end()
    }
}

fn vector2i_from(value: &Value) -> Vector2i {
    Vector2i::new(field_i32(value, "x"), field_i32(value, "y"))
}

fn vector3i_from(value: &Value) -> Vector3i {
    Vector3i::new(field_i32(value, "x"), field_i32(value, "y"), field_i32(value, "z"))
}

fn vector4i_from(value: &Value) -> Vector4i {
    Vector4i::new(
        field_i32(value, "x"),
        field_i32(value, "y"),
        field_i32(value, "z"),
        field_i32(value, "w"),
    )
}

fn rect2i_from(value: &Value) -> Rect2i {
    Rect2i::new(vector2i_from(&value["position"]), vector2i_from(&value["size"]))
}

fn parse(json: &str) -> Value {
    serde_json::from_str(json).expect("valid JSON")
}

#[test]
fn rect2i_serde_roundtrip() {
    let rect = Rect2i::default();
    let expected_json = "{\"position\":{\"x\":0,\"y\":0},\"size\":{\"x\":0,\"y\":0}}";

    assert_eq!(serde_json::to_string(&Json(&rect)).unwrap(), expected_json);
    assert_eq!(rect2i_from(&parse(expected_json)), rect);
}

#[test]
fn vector2i_serde_roundtrip() {
    let vector = Vector2i::default();
    let expected_json = "{\"x\":0,\"y\":0}";

    assert_eq!(serde_json::to_string(&Json(&vector)).unwrap(), expected_json);
    assert_eq!(vector2i_from(&parse(expected_json)), vector);
}

#[test]
fn vector3i_serde_roundtrip() {
    let vector = Vector3i::default();
    let expected_json = "{\"x\":0,\"y\":0,\"z\":0}";

    assert_eq!(serde_json::to_string(&Json(&vector)).unwrap(), expected_json);
    assert_eq!(vector3i_from(&parse(expected_json)), vector);
}

#[test]
fn vector4i_serde_roundtrip() {
    let vector = Vector4i::default();
    let expected_json = "{\"x\":0,\"y\":0,\"z\":0,\"w\":0}";

    assert_eq!(serde_json::to_string(&Json(&vector)).unwrap(), expected_json);
    assert_eq!(vector4i_from(&parse(expected_json)), vector);
}
