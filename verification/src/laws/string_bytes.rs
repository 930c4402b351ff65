//! Laws of which bytes Godot's string types accept.

use vstd::prelude::*;

use crate::enums::Encoding;
use crate::string_bytes::{string_bytes_verdict, StringError};

verus! {

/// ASCII text is accepted only when every byte is below 128: any byte of 128 or more makes the
/// bytes invalid ASCII, whatever else they hold; bytes below 128 are accepted unless a NUL byte
/// is refused.
pub proof fn lemma_ascii_is_bytes_below_128(
    bytes: Seq<u8>,
    check_nul: bool,
    utf8: Result<(), std::str::Utf8Error>,
)
    ensures
        string_bytes_verdict(bytes, Encoding::Ascii, check_nul, utf8) is Ok ==> forall|i: int|
            0 <= i < bytes.len() ==> #[trigger] bytes[i] < 128,
        (exists|i: int| 0 <= i < bytes.len() && #[trigger] bytes[i] >= 128) ==> string_bytes_verdict(
            bytes,
            Encoding::Ascii,
            check_nul,
            utf8,
        ) == Err::<(), StringError>(StringError::InvalidAscii),
        (forall|i: int| 0 <= i < bytes.len() ==> #[trigger] bytes[i] < 128 && (check_nul ==> bytes[i] != 0))
            ==> string_bytes_verdict(bytes, Encoding::Ascii, check_nul, utf8) is Ok,
{
}

/// When NUL bytes are checked, bytes that hold one are refused in every encoding; Latin-1
/// accepts every other byte sequence.
pub proof fn lemma_nul_refused(
    bytes: Seq<u8>,
    encoding: Encoding,
    check_nul: bool,
    utf8: Result<(), std::str::Utf8Error>,
)
    ensures
        check_nul && (exists|i: int| 0 <= i < bytes.len() && #[trigger] bytes[i] == 0) ==> string_bytes_verdict(
            bytes,
            encoding,
            check_nul,
            utf8,
        ) is Err,
        (string_bytes_verdict(bytes, Encoding::Latin1, check_nul, utf8) is Ok) <==> !(check_nul && exists|i: int|
            0 <= i < bytes.len() && #[trigger] bytes[i] == 0),
{
}

/// UTF-8 text is refused as invalid UTF-8 exactly when the decoder reported an error, and then
/// with that error.
pub proof fn lemma_utf8_refused_with_decoder_error(
    bytes: Seq<u8>,
    check_nul: bool,
    utf8: Result<(), std::str::Utf8Error>,
)
    ensures
        utf8 matches Err(e) ==> string_bytes_verdict(bytes, Encoding::Utf8, check_nul, utf8) == Err::<
            (),
            StringError,
        >(StringError::InvalidUtf8(e)),
        utf8 is Ok ==> !(string_bytes_verdict(bytes, Encoding::Utf8, check_nul, utf8) matches Err(
            StringError::InvalidUtf8(_),
        )),
{
}

} // verus!
