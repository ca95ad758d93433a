//! The operator `le`: the attribute is less than or equal to the value.

use vstd::prelude::*;
use vstd::string::StrSliceExecFns;

use crate::error::{view_of, Answer, Error, ErrorView};
use crate::result::Result;
use crate::value::{first_decimal, RefSingleValue, Values};

verus! {

/// Applies the operator `le` to an attribute of a message.
pub trait LeOperator<T> {
    /// What `le_ope` gives.
    spec fn le_ope_spec(&self, target: T) -> Answer;

    fn le_ope(&self, target: T) -> (r: Result<bool>)
        ensures
            view_of(r) == self.le_ope_spec(target),
    ;
}

/// Applies the operator `le` to the number of characters of an attribute of a message.
pub trait LeOperatorForContentLen<T> {
    /// What `le_ope_for_content_len` gives.
    spec fn le_ope_for_content_len_spec(&self, target: T) -> Answer;

    fn le_ope_for_content_len(&self, target: T) -> (r: Result<bool>)
        ensures
            view_of(r) == self.le_ope_for_content_len_spec(target),
    ;
}

impl LeOperator<&Values> for i64 {
    open spec fn le_ope_spec(&self, target: &Values) -> Answer {
        match first_decimal(target.deep_view()) {
            Ok(number) => Ok(*self <= number),
            Err(e) => Err(e),
        }
    }

    fn le_ope(&self, target: &Values) -> (r: Result<bool>) {
        Ok(*self <= *target.ref_a_decimal()?)
    }
}

impl LeOperator<&Values> for i32 {
    open spec fn le_ope_spec(&self, target: &Values) -> Answer {
        (*self as i64).le_ope_spec(target)
    }

    fn le_ope(&self, target: &Values) -> (r: Result<bool>) {
        (*self as i64).le_ope(target)
    }
}

impl LeOperator<&Values> for Option<i32> {
    open spec fn le_ope_spec(&self, target: &Values) -> Answer {
        match self {
            Some(self_data) => self_data.le_ope_spec(target),
            None => Err(ErrorView::FalsyValueHosting),
        }
    }

    fn le_ope(&self, target: &Values) -> (r: Result<bool>) {
        if let Some(self_data) = self {
            self_data.le_ope(target)
        } else {
            Err(Error::FalsyValueHosting)
        }
    }
}

impl LeOperatorForContentLen<&Values> for String {
    open spec fn le_ope_for_content_len_spec(&self, target: &Values) -> Answer {
        match first_decimal(target.deep_view()) {
            Ok(number) => Ok(self@.len() <= number),
            Err(e) => Err(e),
        }
    }

    fn le_ope_for_content_len(&self, target: &Values) -> (r: Result<bool>) {
        let number = *target.ref_a_decimal()?;
        let len = self.as_str().unicode_len();
        Ok(number >= 0 && len as u64 <= number as u64)
    }
}

impl LeOperatorForContentLen<&Values> for Option<String> {
    open spec fn le_ope_for_content_len_spec(&self, target: &Values) -> Answer {
        match self {
            Some(self_data) => self_data.le_ope_for_content_len_spec(target),
            None => Err(ErrorView::FalsyValueHosting),
        }
    }

    fn le_ope_for_content_len(&self, target: &Values) -> (r: Result<bool>) {
        if let Some(self_data) = self {
            self_data.le_ope_for_content_len(target)
        } else {
            Err(Error::FalsyValueHosting)
        }
    }
}

} // verus!
