//! The uniform failure taxonomy of the backend layer.
//!
//! Every native failure enters the library through one of these variants:
//! a native graphics library that could not be loaded, a native call that
//! returned a failing status code (the code is preserved for logging), or
//! a window handle whose platform kind the backend does not support.

use vstd::prelude::*;

verus! {

/// A failure of the graphics backend layer.
#[derive(Debug, Clone, Copy, PartialEq, Eq, Structural)]
pub enum Error {
    /// A native graphics library or interface could not be loaded.
    LoadLibraryError,
    /// A native call returned the carried failing status code.
    WindowsError(i32),
    /// A window handle of a platform kind the backend does not support.
    UnsupportedWindowHandle,
}

impl Error {
    /// The native status code carried by the error, if it carries one.
    pub fn native_code(&self) -> (r: Option<i32>)
        ensures
            r == (match *self {
                Error::WindowsError(code) => Some(code),
                _ => None::<i32>,
            }),
    {
        match self {
            Error::WindowsError(code) => Some(*code),
            _ => None,
        }
    }
}

} // verus!
