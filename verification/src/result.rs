//! The result type shared by every fallible function of the library.

use vstd::prelude::*;

use crate::error::Error;

verus! {

/// A result whose error is the library's [`Error`].
pub type Result<T> = core::result::Result<T, Error>;

} // verus!
