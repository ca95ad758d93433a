//! The operator `eq`: the attribute equals the value.

use vstd::prelude::*;
use vstd::string::StrSliceExecFns;

use crate::error::{view_of, Answer, Error, ErrorView};
use crate::result::Result;
use crate::text::str_eq;
use crate::value::{first_decimal, first_letter, RefSingleValue, Values};

verus! {

/// Applies the operator `eq` to an attribute of a message.
pub trait EqOperator<T> {
    /// What `eq_ope` gives.
    spec fn eq_ope_spec(&self, target: T) -> Answer;

    fn eq_ope(&self, target: T) -> (r: Result<bool>)
        ensures
            view_of(r) == self.eq_ope_spec(target),
    ;
}

/// Applies the operator `eq` to the number of characters of an attribute of a message.
pub trait EqOperatorForContentLen<T> {
    /// What `eq_ope_for_content_len` gives.
    spec fn eq_ope_for_content_len_spec(&self, target: T) -> Answer;

    fn eq_ope_for_content_len(&self, target: T) -> (r: Result<bool>)
        ensures
            view_of(r) == self.eq_ope_for_content_len_spec(target),
    ;
}

impl EqOperator<&Values> for i64 {
    open spec fn eq_ope_spec(&self, target: &Values) -> Answer {
        match first_decimal(target.deep_view()) {
            Ok(number) => Ok(*self == number),
            Err(e) => Err(e),
        }
    }

    fn eq_ope(&self, target: &Values) -> (r: Result<bool>) {
        Ok(*self == *target.ref_a_decimal()?)
    }
}

impl EqOperator<&Values> for i32 {
    open spec fn eq_ope_spec(&self, target: &Values) -> Answer {
        (*self as i64).eq_ope_spec(target)
    }

    fn eq_ope(&self, target: &Values) -> (r: Result<bool>) {
        (*self as i64).eq_ope(target)
    }
}

impl EqOperator<&Values> for Option<i32> {
    open spec fn eq_ope_spec(&self, target: &Values) -> Answer {
        match self {
            Some(self_data) => self_data.eq_ope_spec(target),
            None => Err(ErrorView::FalsyValueHosting),
        }
    }

    fn eq_ope(&self, target: &Values) -> (r: Result<bool>) {
        if let Some(self_data) = self {
            self_data.eq_ope(target)
        } else {
            Err(Error::FalsyValueHosting)
        }
    }
}

impl EqOperator<&Values> for String {
    open spec fn eq_ope_spec(&self, target: &Values) -> Answer {
        match first_letter(target.deep_view()) {
            Ok(text) => Ok(self@ == text),
            Err(e) => Err(e),
        }
    }

    fn eq_ope(&self, target: &Values) -> (r: Result<bool>) {
        Ok(str_eq(self.as_str(), target.ref_a_str()?))
    }
}

impl EqOperator<&Values> for Option<String> {
    open spec fn eq_ope_spec(&self, target: &Values) -> Answer {
        match self {
            Some(self_data) => self_data.eq_ope_spec(target),
            None => Err(ErrorView::FalsyValueHosting),
        }
    }

    fn eq_ope(&self, target: &Values) -> (r: Result<bool>) {
        if let Some(self_data) = self {
            self_data.eq_ope(target)
        } else {
            Err(Error::FalsyValueHosting)
        }
    }
}

impl EqOperatorForContentLen<&Values> for String {
    open spec fn eq_ope_for_content_len_spec(&self, target: &Values) -> Answer {
        match first_decimal(target.deep_view()) {
            Ok(number) => Ok(self@.len() == number),
            Err(e) => Err(e),
        }
    }

    fn eq_ope_for_content_len(&self, target: &Values) -> (r: Result<bool>) {
        let number = *target.ref_a_decimal()?;
        let len = self.as_str().unicode_len();
        Ok(number >= 0 && number as u64 == len as u64)
    }
}

impl EqOperatorForContentLen<&Values> for Option<String> {
    open spec fn eq_ope_for_content_len_spec(&self, target: &Values) -> Answer {
        match self {
            Some(self_data) => self_data.eq_ope_for_content_len_spec(target),
            None => Err(ErrorView::FalsyValueHosting),
        }
    }

    fn eq_ope_for_content_len(&self, target: &Values) -> (r: Result<bool>) {
        if let Some(self_data) = self {
            self_data.eq_ope_for_content_len(target)
        } else {
            Err(Error::FalsyValueHosting)
        }
    }
}

} // verus!
