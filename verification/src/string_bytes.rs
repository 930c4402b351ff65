//! Which byte sequences Godot's string types accept for each text encoding.

use vstd::prelude::*;

use crate::enums::Encoding;

verus! {

/// The error that `std::str::from_utf8` reports, carrying where the bytes stop being UTF-8.
#[verifier::external_type_specification]
#[verifier::external_body]
pub struct ExUtf8Error(std::str::Utf8Error);

/// Why bytes were refused as the contents of a string.
#[derive(Copy, Clone, Eq, PartialEq, Debug)]
pub enum StringError {
    /// A byte is not ASCII.
    InvalidAscii,
    /// An ASCII string holds a NUL byte.
    NulInAscii,
    /// A Latin-1 string holds a NUL byte.
    NulInLatin1,
    /// The bytes are not UTF-8; the decoder's error, with the position of the first invalid
    /// byte, is its source.
    InvalidUtf8(std::str::Utf8Error),
    /// A UTF-8 string holds a NUL byte.
    NulInUtf8,
}

impl StringError {
    /// The human-readable message for the error.
    pub open spec fn spec_message(self) -> Seq<char> {
        match self {
            StringError::InvalidAscii => "invalid ASCII"@,
            StringError::NulInAscii => "intermediate NUL byte in ASCII string"@,
            StringError::NulInLatin1 => "intermediate NUL byte in Latin-1 string"@,
            StringError::InvalidUtf8(_) => "invalid UTF-8"@,
            StringError::NulInUtf8 => "intermediate NUL byte in UTF-8 string"@,
        }
    }

    /// The human-readable message for the error.
    pub fn message(&self) -> (r: &'static str)
        ensures
            r@ == self.spec_message(),
    {
        match self {
            StringError::InvalidAscii => "invalid ASCII",
            StringError::NulInAscii => "intermediate NUL byte in ASCII string",
            StringError::NulInLatin1 => "intermediate NUL byte in Latin-1 string",
            StringError::InvalidUtf8(_) => "invalid UTF-8",
            StringError::NulInUtf8 => "intermediate NUL byte in UTF-8 string",
        }
    }
}

/// Calls `std::str::from_utf8`: `Ok(())` when the bytes are well-formed UTF-8 (vstd's
/// `valid_utf8`, the Unicode encoding form that the standard library documents), and otherwise
/// the error it reports. Nothing is stated of what that error holds.
#[verifier::external_body]
fn check_utf8(bytes: &[u8]) -> (r: Result<(), std::str::Utf8Error>)
    ensures
        r is Ok <==> vstd::utf8::valid_utf8(bytes@),
{
    match std::str::from_utf8(bytes) {
        Ok(_) => Ok(()),
        Err(e) => Err(e),
    }
}

/// Every byte is ASCII (below 128).
pub open spec fn all_ascii(bytes: Seq<u8>) -> bool {
    forall|i: int| 0 <= i < bytes.len() ==> #[trigger] bytes[i] < 128
}

/// Some byte is NUL.
pub open spec fn has_nul(bytes: Seq<u8>) -> bool {
    exists|i: int| 0 <= i < bytes.len() && #[trigger] bytes[i] == 0
}

/// What [`validate_string_bytes`] answers for `bytes` in `encoding`, given whether NUL bytes
/// must be refused and what the UTF-8 decoder reported for them.
pub open spec fn string_bytes_verdict(
    bytes: Seq<u8>,
    encoding: Encoding,
    check_nul: bool,
    utf8: Result<(), std::str::Utf8Error>,
) -> Result<(), StringError> {
    match encoding {
        Encoding::Ascii => if !all_ascii(bytes) {
            Err(StringError::InvalidAscii)
        } else if check_nul && has_nul(bytes) {
            Err(StringError::NulInAscii)
        } else {
            Ok(())
        },
        Encoding::Latin1 => if check_nul && has_nul(bytes) {
            Err(StringError::NulInLatin1)
        } else {
            Ok(())
        },
        Encoding::Utf8 => match utf8 {
            Err(e) => Err(StringError::InvalidUtf8(e)),
            Ok(()) => if check_nul && has_nul(bytes) {
                Err(StringError::NulInUtf8)
            } else {
                Ok(())
            },
        },
    }
}

/// Whether every byte is ASCII.
fn bytes_are_ascii(bytes: &[u8]) -> (r: bool)
    ensures
        r == all_ascii(bytes@),
{
    let mut i: usize = 0;
    while i < bytes.len()
        invariant
            i <= bytes@.len(),
            forall|j: int| 0 <= j < i ==> #[trigger] bytes@[j] < 128,
        decreases bytes@.len() - i,
    {
        if bytes[i] >= 128 {
            return false;
        }
        i += 1;
    }
    true
}

/// Whether some byte is NUL.
fn bytes_contain_nul(bytes: &[u8]) -> (r: bool)
    ensures
        r == has_nul(bytes@),
{
    let mut i: usize = 0;
    while i < bytes.len()
        invariant
            i <= bytes@.len(),
            forall|j: int| 0 <= j < i ==> #[trigger] bytes@[j] != 0,
        decreases bytes@.len() - i,
    {
        if bytes[i] == 0 {
            return true;
        }
        i += 1;
    }
    false
}

/// Decides whether `bytes` are acceptable as the contents of a Godot string in `encoding`,
/// given what the UTF-8 decoder reported for them (`utf8`, consulted for the UTF-8 encoding
/// only; its error becomes the source of [`StringError::InvalidUtf8`]).
///
/// ASCII bytes must all be below 128, UTF-8 bytes must be UTF-8, and Latin-1 accepts any byte.
/// When `check_nul` is set (the bytes do not come from a C string), a NUL byte is refused in
/// every encoding, since Godot does not accept intermediate NUL characters.
pub fn decide_string_bytes(
    bytes: &[u8],
    encoding: Encoding,
    check_nul: bool,
    utf8: Result<(), std::str::Utf8Error>,
) -> (r: Result<(), StringError>)
    ensures
        r == string_bytes_verdict(bytes@, encoding, check_nul, utf8),
{
    match encoding {
        Encoding::Ascii => {
            if !bytes_are_ascii(bytes) {
                Err(StringError::InvalidAscii)
            } else if check_nul && bytes_contain_nul(bytes) {
                Err(StringError::NulInAscii)
            } else {
                Ok(())
            }
        },
        Encoding::Latin1 => {
            if check_nul && bytes_contain_nul(bytes) {
                Err(StringError::NulInLatin1)
            } else {
                Ok(())
            }
        },
        Encoding::Utf8 => match utf8 {
            Err(e) => Err(StringError::InvalidUtf8(e)),
            Ok(()) => {
                if check_nul && bytes_contain_nul(bytes) {
                    Err(StringError::NulInUtf8)
                } else {
                    Ok(())
                }
            },
        },
    }
}

/// Checks that `bytes` are acceptable as the contents of a Godot string in `encoding` (see
/// [`decide_string_bytes`]); UTF-8 validity is vstd's `valid_utf8`, which `std::str::from_utf8` checks, and its
/// error is kept as the source of [`StringError::InvalidUtf8`].
pub fn validate_string_bytes(bytes: &[u8], encoding: Encoding, check_nul: bool) -> (r: Result<(), StringError>)
    ensures
        (r matches Err(StringError::InvalidUtf8(_))) <==> (encoding is Utf8 && !vstd::utf8::valid_utf8(bytes@)),
        !(r matches Err(StringError::InvalidUtf8(_))) ==> r == string_bytes_verdict(
            bytes@,
            encoding,
            check_nul,
            Ok(()),
        ),
{
    let utf8 = match encoding {
        Encoding::Utf8 => check_utf8(bytes),
        _ => Ok(()),
    };
    decide_string_bytes(bytes, encoding, check_nul, utf8)
}

} // verus!
