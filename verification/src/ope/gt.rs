//! The operator `gt`: the attribute is greater than the value.

use vstd::prelude::*;
use vstd::string::StrSliceExecFns;

use crate::error::{view_of, Answer, Error, ErrorView};
use crate::result::Result;
use crate::value::{first_decimal, RefSingleValue, Values};

verus! {

/// Applies the operator `gt` to an attribute of a message.
pub trait GtOperator<T> {
    /// What `gt_ope` gives.
    spec fn gt_ope_spec(&self, target: T) -> Answer;

    fn gt_ope(&self, target: T) -> (r: Result<bool>)
        ensures
            view_of(r) == self.gt_ope_spec(target),
    ;
}

/// Applies the operator `gt` to the number of characters of an attribute of a message.
pub trait GtOperatorForContentLen<T> {
    /// What `gt_ope_for_content_len` gives.
    spec fn gt_ope_for_content_len_spec(&self, target: T) -> Answer;

    fn gt_ope_for_content_len(&self, target: T) -> (r: Result<bool>)
        ensures
            view_of(r) == self.gt_ope_for_content_len_spec(target),
    ;
}

impl GtOperator<&Values> for i64 {
    open spec fn gt_ope_spec(&self, target: &Values) -> Answer {
        match first_decimal(target.deep_view()) {
            Ok(number) => Ok(*self > number),
            Err(e) => Err(e),
        }
    }

    fn gt_ope(&self, target: &Values) -> (r: Result<bool>) {
        Ok(*self > *target.ref_a_decimal()?)
    }
}

impl GtOperator<&Values> for i32 {
    open spec fn gt_ope_spec(&self, target: &Values) -> Answer {
        (*self as i64).gt_ope_spec(target)
    }

    fn gt_ope(&self, target: &Values) -> (r: Result<bool>) {
        (*self as i64).gt_ope(target)
    }
}

impl GtOperator<&Values> for Option<i32> {
    open spec fn gt_ope_spec(&self, target: &Values) -> Answer {
        match self {
            Some(self_data) => self_data.gt_ope_spec(target),
            None => Err(ErrorView::FalsyValueHosting),
        }
    }

    fn gt_ope(&self, target: &Values) -> (r: Result<bool>) {
        if let Some(self_data) = self {
            self_data.gt_ope(target)
        } else {
            Err(Error::FalsyValueHosting)
        }
    }
}

impl GtOperatorForContentLen<&Values> for String {
    open spec fn gt_ope_for_content_len_spec(&self, target: &Values) -> Answer {
        match first_decimal(target.deep_view()) {
            Ok(number) => Ok(self@.len() > number),
            Err(e) => Err(e),
        }
    }

    fn gt_ope_for_content_len(&self, target: &Values) -> (r: Result<bool>) {
        let number = *target.ref_a_decimal()?;
        let len = self.as_str().unicode_len();
        Ok(number < 0 || len as u64 > number as u64)
    }
}

impl GtOperatorForContentLen<&Values> for Option<String> {
    open spec fn gt_ope_for_content_len_spec(&self, target: &Values) -> Answer {
        match self {
            Some(self_data) => self_data.gt_ope_for_content_len_spec(target),
            None => Err(ErrorView::FalsyValueHosting),
        }
    }

    fn gt_ope_for_content_len(&self, target: &Values) -> (r: Result<bool>) {
        if let Some(self_data) = self {
            self_data.gt_ope_for_content_len(target)
        } else {
            Err(Error::FalsyValueHosting)
        }
    }
}

} // verus!
