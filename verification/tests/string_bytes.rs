use godot_core::enums::Encoding;
use godot_core::string_bytes::{decide_string_bytes, validate_string_bytes, StringError};

#[test]
fn ascii_bytes() {
    assert_eq!(validate_string_bytes(b"hello", Encoding::Ascii, true), Ok(()));
    assert_eq!(
        validate_string_bytes(&[b'h', 0xE9], Encoding::Ascii, true),
        Err(StringError::InvalidAscii)
    );
    assert_eq!(
        validate_string_bytes(b"a\0b", Encoding::Ascii, true),
        Err(StringError::NulInAscii)
    );
    assert_eq!(validate_string_bytes(b"a\0b", Encoding::Ascii, false), Ok(()));
}

#[test]
fn latin1_bytes() {
    assert_eq!(validate_string_bytes(&[0xE9, 0xFF, 0x41], Encoding::Latin1, true), Ok(()));
    assert_eq!(
        validate_string_bytes(&[0xE9, 0, 0x41], Encoding::Latin1, true),
        Err(StringError::NulInLatin1)
    );
}

#[test]
fn utf8_bytes() {
    assert_eq!(validate_string_bytes("héllo".as_bytes(), Encoding::Utf8, true), Ok(()));
    let invalid = [0xC3, 0x28];
    assert_eq!(
        validate_string_bytes(&invalid, Encoding::Utf8, true),
        Err(StringError::InvalidUtf8(std::str::from_utf8(&invalid).unwrap_err()))
    );
    assert_eq!(
        validate_string_bytes(b"a\0b", Encoding::Utf8, true),
        Err(StringError::NulInUtf8)
    );
    assert_eq!(validate_string_bytes(b"a\0b", Encoding::Utf8, false), Ok(()));
}

#[test]
fn decisions_given_utf8_verdict() {
    let decoder_error = std::str::from_utf8(&[0xFF]).unwrap_err();
    assert_eq!(
        decide_string_bytes(b"abc", Encoding::Utf8, true, Err(decoder_error)),
        Err(StringError::InvalidUtf8(decoder_error))
    );
    assert_eq!(decide_string_bytes(b"abc", Encoding::Utf8, true, Ok(())), Ok(()));
    assert_eq!(decide_string_bytes(&[0xFF], Encoding::Ascii, true, Ok(())), Err(StringError::InvalidAscii));
}

#[test]
fn error_messages() {
    assert_eq!(StringError::InvalidAscii.message(), "invalid ASCII");
    assert_eq!(StringError::NulInLatin1.message(), "intermediate NUL byte in Latin-1 string");
    let decoder_error = std::str::from_utf8(&[0xFF]).unwrap_err();
    assert_eq!(StringError::InvalidUtf8(decoder_error).message(), "invalid UTF-8");
}

#[test]
fn utf8_error_keeps_position() {
    match validate_string_bytes(b"ab\xFFcd", Encoding::Utf8, true) {
        Err(StringError::InvalidUtf8(source)) => {
            assert_eq!(source.valid_up_to(), 2);
            assert_eq!(source.error_len(), Some(1));
        }
        other => panic!("expected an invalid UTF-8 error, got {other:?}"),
    }
}
