//! Godot's `Error` codes and their conversion to and from `Result`.

use vstd::prelude::*;

verus! {

/// An error code reported by the engine; the ordinal `0` is `OK`, all others are failures.
#[derive(Copy, Clone, Eq, PartialEq, Structural, Hash, Debug)]
pub struct Error {
    ord: i32,
}

impl Error {
    /// The engine ordinal of the code.
    pub closed spec fn spec_ord(self) -> i32 {
        self.ord
    }

    /// The code is `OK`.
    pub open spec fn is_ok_code(self) -> bool {
        self.spec_ord() == 0
    }

    /// The error code with the given engine ordinal.
    pub fn from_ord(ord: i32) -> (r: Self)
        ensures
            r.spec_ord() == ord,
    {
        Error { ord }
    }

    /// The engine ordinal of the code.
    pub fn ord(self) -> (r: i32)
        ensures
            r == self.spec_ord(),
    {
        self.ord
    }

    /// `Ok(())` for `OK`, and `Err(self)` for any other code.
    pub open spec fn spec_into_result(self) -> Result<(), Self> {
        if self.is_ok_code() {
            Ok(())
        } else {
            Err(self)
        }
    }

    /// Returns `Ok(())` for `OK`, and `Err(self)` for any other code.
    pub fn into_result(self) -> (r: Result<(), Self>)
        ensures
            r == self.spec_into_result(),
    {
        if self.ord == 0 {
            Ok(())
        } else {
            Err(self)
        }
    }

    /// Creates an `Error` from a `Result<(), Error>`.
    ///
    /// `Ok(())` becomes `OK`, and `Err(e)` becomes `e` (even in the unusual case where `e` is
    /// `OK`).
    pub fn from_result(result: Result<(), Self>) -> (r: Self)
        ensures
            match result {
                Ok(()) => r.is_ok_code(),
                Err(e) => r == e,
            },
    {
        match result {
            Ok(()) => Error { ord: 0 },
            Err(e) => e,
        }
    }
}

/// Two error codes with the same engine ordinal are the same code.
pub proof fn lemma_same_ord_same_code(a: Error, b: Error)
    requires
        a.spec_ord() == b.spec_ord(),
    ensures
        a == b,
{
}

/// Converting an error code to a `Result` and back gives the code again.
pub proof fn lemma_from_into_result(e: Error)
    ensures
        match e.spec_into_result() {
            Ok(()) => e.is_ok_code(),
            Err(code) => code == e,
        },
{
}

/// Converting a `Result` to an error code and back gives the `Result` again, unless it was an
/// `Err` that holds `OK`.
pub proof fn lemma_into_from_result(result: Result<(), Error>, code: Error)
    requires
        match result {
            Ok(()) => code.is_ok_code(),
            Err(e) => code == e,
        },
        !(result matches Err(e) && e.is_ok_code()),
    ensures
        code.spec_into_result() == result,
{
    match result {
        Ok(u) => {
            assert(u == ());
            assert(code.spec_into_result() == Ok::<(), Error>(()));
        },
        Err(e) => {
            assert(!e.is_ok_code());
        },
    }
}

} // verus!
