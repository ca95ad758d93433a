//! Absence: reading an optional attribute that may not be there.

use vstd::prelude::*;

use crate::error::Error;
use crate::result::Result;

verus! {

/// Reads what an optional value holds, or reports that it is absent.
pub trait UnwrapOrFalseyHosting<T> {
    /// What the optional value holds, if it holds anything.
    spec fn hosted(&self) -> Option<T>;

    fn unwrap_or_falsey_hosting(&self) -> (r: Result<&T>)
        ensures
            match self.hosted() {
                Some(v) => r == Ok::<&T, Error>(&v),
                None => r matches Err(Error::FalsyValueHosting),
            },
    ;
}

impl<T> UnwrapOrFalseyHosting<T> for Option<T> {
    open spec fn hosted(&self) -> Option<T> {
        *self
    }

    fn unwrap_or_falsey_hosting(&self) -> (r: Result<&T>) {
        if let Some(v) = self {
            Ok(v)
        } else {
            Err(Error::FalsyValueHosting)
        }
    }
}

} // verus!
