//! The operator `ge`: the attribute is greater than or equal to the value.

use vstd::prelude::*;
use vstd::string::StrSliceExecFns;

use crate::error::{view_of, Answer, Error, ErrorView};
use crate::result::Result;
use crate::value::{first_decimal, RefSingleValue, Values};

verus! {

/// Applies the operator `ge` to an attribute of a message.
pub trait GeOperator<T> {
    /// What `ge_ope` gives.
    spec fn ge_ope_spec(&self, target: T) -> Answer;

    fn ge_ope(&self, target: T) -> (r: Result<bool>)
        ensures
            view_of(r) == self.ge_ope_spec(target),
    ;
}

/// Applies the operator `ge` to the number of characters of an attribute of a message.
pub trait GeOperatorForContentLen<T> {
    /// What `ge_ope_for_content_len` gives.
    spec fn ge_ope_for_content_len_spec(&self, target: T) -> Answer;

    fn ge_ope_for_content_len(&self, target: T) -> (r: Result<bool>)
        ensures
            view_of(r) == self.ge_ope_for_content_len_spec(target),
    ;
}

impl GeOperator<&Values> for i64 {
    open spec fn ge_ope_spec(&self, target: &Values) -> Answer {
        match first_decimal(target.deep_view()) {
            Ok(number) => Ok(*self >= number),
            Err(e) => Err(e),
        }
    }

    fn ge_ope(&self, target: &Values) -> (r: Result<bool>) {
        Ok(*self >= *target.ref_a_decimal()?)
    }
}

impl GeOperator<&Values> for i32 {
    open spec fn ge_ope_spec(&self, target: &Values) -> Answer {
        (*self as i64).ge_ope_spec(target)
    }

    fn ge_ope(&self, target: &Values) -> (r: Result<bool>) {
        (*self as i64).ge_ope(target)
    }
}

impl GeOperator<&Values> for Option<i32> {
    open spec fn ge_ope_spec(&self, target: &Values) -> Answer {
        match self {
            Some(self_data) => self_data.ge_ope_spec(target),
            None => Err(ErrorView::FalsyValueHosting),
        }
    }

    fn ge_ope(&self, target: &Values) -> (r: Result<bool>) {
        if let Some(self_data) = self {
            self_data.ge_ope(target)
        } else {
            Err(Error::FalsyValueHosting)
        }
    }
}

impl GeOperatorForContentLen<&Values> for String {
    open spec fn ge_ope_for_content_len_spec(&self, target: &Values) -> Answer {
        match first_decimal(target.deep_view()) {
            Ok(number) => Ok(self@.len() >= number),
            Err(e) => Err(e),
        }
    }

    fn ge_ope_for_content_len(&self, target: &Values) -> (r: Result<bool>) {
        let number = *target.ref_a_decimal()?;
        let len = self.as_str().unicode_len();
        Ok(number < 0 || len as u64 >= number as u64)
    }
}

impl GeOperatorForContentLen<&Values> for Option<String> {
    open spec fn ge_ope_for_content_len_spec(&self, target: &Values) -> Answer {
        match self {
            Some(self_data) => self_data.ge_ope_for_content_len_spec(target),
            None => Err(ErrorView::FalsyValueHosting),
        }
    }

    fn ge_ope_for_content_len(&self, target: &Values) -> (r: Result<bool>) {
        if let Some(self_data) = self {
            self_data.ge_ope_for_content_len(target)
        } else {
            Err(Error::FalsyValueHosting)
        }
    }
}

} // verus!
