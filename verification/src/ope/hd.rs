//! The operator `hd`: the text starts with the value.

use vstd::prelude::*;

use crate::error::{view_of, Answer, Error, ErrorView};
use crate::result::Result;
use crate::text::str_starts_with;
use crate::value::{first_letter, RefSingleValue, Values};

verus! {

/// Applies the operator `hd` to an attribute of a message.
pub trait HdOperator<T> {
    /// What `hd_ope` gives.
    spec fn hd_ope_spec(&self, target: T) -> Answer;

    fn hd_ope(&self, target: T) -> (r: Result<bool>)
        ensures
            view_of(r) == self.hd_ope_spec(target),
    ;
}

impl HdOperator<&Values> for String {
    open spec fn hd_ope_spec(&self, target: &Values) -> Answer {
        match first_letter(target.deep_view()) {
            Ok(part) => Ok(part.is_prefix_of(self@)),
            Err(e) => Err(e),
        }
    }

    fn hd_ope(&self, target: &Values) -> (r: Result<bool>) {
        Ok(str_starts_with(self.as_str(), target.ref_a_str()?))
    }
}

impl HdOperator<&Values> for Option<String> {
    open spec fn hd_ope_spec(&self, target: &Values) -> Answer {
        match self {
            Some(self_data) => self_data.hd_ope_spec(target),
            None => Err(ErrorView::FalsyValueHosting),
        }
    }

    fn hd_ope(&self, target: &Values) -> (r: Result<bool>) {
        if let Some(self_data) = self {
            self_data.hd_ope(target)
        } else {
            Err(Error::FalsyValueHosting)
        }
    }
}

} // verus!
