//! HRESULT status codes and their translation to `Result`.

use vstd::prelude::*;

verus! {

/// An HRESULT is a 32-bit status code; non-negative values mean success.
pub open spec fn spec_succeeded(hr: int) -> bool {
    hr >= 0
}

/// A failed HRESULT, carried as the raw OS error code.
#[derive(Clone, Copy, Debug, PartialEq, Eq, Structural)]
pub struct OsError {
    pub code: i32,
}

/// True exactly when the status code reports success.
pub fn succeeded(hr: i32) -> (r: bool)
    ensures
        r == spec_succeeded(hr as int),
{
    hr >= 0
}

/// Translates a status code: success keeps `()`, failure carries the code.
pub fn checked(hr: i32) -> (r: Result<(), OsError>)
    ensures
        r is Ok <==> spec_succeeded(hr as int),
        r is Err ==> r->Err_0.code == hr,
{
    if hr >= 0 {
        Ok(())
    } else {
        Err(OsError { code: hr })
    }
}

/// A status code that can carry a value into a `Result`.
pub trait ResultCarrier: Sized {
    /// Whether the status reports success.
    spec fn spec_ok(self) -> bool;

    /// The raw code an error would carry.
    spec fn spec_code(self) -> i32;

    /// On success the given value, on failure the error code.
    fn to_result<T>(self, v: T) -> (r: Result<T, OsError>)
        ensures
            r is Ok <==> self.spec_ok(),
            r is Ok ==> r->Ok_0 == v,
            r is Err ==> r->Err_0.code == self.spec_code(),
    ;

    /// On success the value the closure builds, on failure the error code;
    /// the closure runs only on success.
    fn to_result_with<T, F: FnOnce() -> T>(self, tf: F) -> (r: Result<T, OsError>)
        requires
            self.spec_ok() ==> call_requires(tf, ()),
        ensures
            r is Ok <==> self.spec_ok(),
            r is Ok ==> call_ensures(tf, (), r->Ok_0),
            r is Err ==> r->Err_0.code == self.spec_code(),
    ;

    /// On success nothing, on failure the error code.
    fn checked(self) -> (r: Result<(), OsError>)
        ensures
            r is Ok <==> self.spec_ok(),
            r is Err ==> r->Err_0.code == self.spec_code(),
    ;
}

impl ResultCarrier for i32 {
    open spec fn spec_ok(self) -> bool {
        spec_succeeded(self as int)
    }

    open spec fn spec_code(self) -> i32 {
        self
    }

    fn to_result<T>(self, v: T) -> (r: Result<T, OsError>) {
        if self >= 0 {
            Ok(v)
        } else {
            Err(OsError { code: self })
        }
    }

    fn to_result_with<T, F: FnOnce() -> T>(self, tf: F) -> (r: Result<T, OsError>) {
        if self >= 0 {
            Ok(tf())
        } else {
            Err(OsError { code: self })
        }
    }

    fn checked(self) -> (r: Result<(), OsError>) {
        if self >= 0 {
            Ok(())
        } else {
            Err(OsError { code: self })
        }
    }
}

} // verus!
