//! The native result adapter: the single chokepoint through which every
//! native status code enters the uniform error model.
//!
//! A native call hands back a value together with a status code. A
//! non-negative code means success and yields the value; a negative code is
//! translated to [`Error::WindowsError`] carrying the original code.

use vstd::prelude::*;

use crate::error::Error;

verus! {

/// True exactly when a native status code signals success.
pub open spec fn spec_succeeded(code: i32) -> bool {
    code >= 0
}

/// A value paired with the status code the native call answered alongside it.
#[derive(Debug, Clone, Copy)]
pub struct NativeResult<T> {
    pub value: T,
    pub code: i32,
}

/// Turns a native (value, status) pair into a uniform result.
pub trait IntoResult: Sized {
    type Type;
    type Error;

    fn into_result(self) -> Result<Self::Type, Self::Error>;
}

impl<T> IntoResult for NativeResult<T> {
    type Type = T;
    type Error = Error;

    /// Success yields the produced value; any failing status maps to
    /// `WindowsError` with the code preserved. No status value panics.
    fn into_result(self) -> (r: Result<T, Error>)
        ensures
            spec_succeeded(self.code) ==> (r matches Ok(v) && v == self.value),
            !spec_succeeded(self.code) ==> r == Err::<T, Error>(Error::WindowsError(self.code)),
    {
        if self.code >= 0 {
            Ok(self.value)
        } else {
            Err(Error::WindowsError(self.code))
        }
    }
}

} // verus!
