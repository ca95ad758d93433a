//! The operator `td`: the text ends with the value.

use vstd::prelude::*;

use crate::error::{view_of, Answer, Error, ErrorView};
use crate::result::Result;
use crate::text::str_ends_with;
use crate::value::{first_letter, RefSingleValue, Values};

verus! {

/// Applies the operator `td` to an attribute of a message.
pub trait TdOperator<T> {
    /// What `td_ope` gives.
    spec fn td_ope_spec(&self, target: T) -> Answer;

    fn td_ope(&self, target: T) -> (r: Result<bool>)
        ensures
            view_of(r) == self.td_ope_spec(target),
    ;
}

impl TdOperator<&Values> for String {
    open spec fn td_ope_spec(&self, target: &Values) -> Answer {
        match first_letter(target.deep_view()) {
            Ok(part) => Ok(part.is_suffix_of(self@)),
            Err(e) => Err(e),
        }
    }

    fn td_ope(&self, target: &Values) -> (r: Result<bool>) {
        Ok(str_ends_with(self.as_str(), target.ref_a_str()?))
    }
}

impl TdOperator<&Values> for Option<String> {
    open spec fn td_ope_spec(&self, target: &Values) -> Answer {
        match self {
            Some(self_data) => self_data.td_ope_spec(target),
            None => Err(ErrorView::FalsyValueHosting),
        }
    }

    fn td_ope(&self, target: &Values) -> (r: Result<bool>) {
        if let Some(self_data) = self {
            self_data.td_ope(target)
        } else {
            Err(Error::FalsyValueHosting)
        }
    }
}

} // verus!
