use godot_core::bitfield::bitfield_debug_string;

const CONSTANTS: [(&str, u64); 5] = [
    ("NONE", 0),
    ("FAST", 1),
    ("GOOD", 2),
    ("CHEAP", 4),
    ("DEFAULT", 3),
];

#[test]
fn bitfield_lists_all_fully_set_constants() {
    assert_eq!(bitfield_debug_string("Flags", 3, &CONSTANTS), "Flags { FAST | GOOD | DEFAULT }");
    assert_eq!(bitfield_debug_string("Flags", 4, &CONSTANTS), "Flags { CHEAP }");
}

#[test]
fn bitfield_zero_lists_only_empty_constants() {
    assert_eq!(bitfield_debug_string("Flags", 0, &CONSTANTS), "Flags { NONE }");
    assert_eq!(bitfield_debug_string("Flags", 0, &[]), "Flags {  }");
}

#[test]
fn bitfield_unknown_bits_in_hex() {
    assert_eq!(bitfield_debug_string("Flags", 8, &CONSTANTS), "Flags { Unknown(0x8) }");
    assert_eq!(bitfield_debug_string("Flags", 0x1F9, &CONSTANTS), "Flags { FAST | Unknown(0x1F8) }");
    assert_eq!(
        bitfield_debug_string("Flags", u64::MAX, &[]),
        "Flags { Unknown(0xFFFFFFFFFFFFFFFF) }"
    );
}
