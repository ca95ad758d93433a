//! The operator `all`: the text holds every value.

use vstd::prelude::*;

use crate::error::{answer, view_of, Answer, Error, ErrorView};
use crate::result::Result;
use crate::text::{occurs_in, str_contains};
use crate::value::{all_letters, letter_of, RefSingleValue, ValueView, Values};

verus! {

/// Whether `text` holds each of `values`.
///
/// The values are read in order, up to the first that decides; one that is
/// read and is no text is an error.
pub open spec fn all_of(text: Seq<char>, values: Seq<ValueView>) -> Answer
    decreases values.len(),
{
    if values.len() == 0 {
        Ok(true)
    } else {
        match letter_of(values[0]) {
            Err(e) => Err(e),
            Ok(part) => if !occurs_in(part, text) {
                Ok(false)
            } else {
                all_of(text, values.drop_first())
            },
        }
    }
}

/// Whether each of the texts `values` occurs in `text`.
pub open spec fn each_occurs(text: Seq<char>, values: Seq<ValueView>) -> bool {
    forall|i: int| 0 <= i < values.len() ==> occurs_in((#[trigger] values[i])->Letter_0, text)
}

/// Of texts, `all` holds exactly where each of them occurs in the text.
pub proof fn lemma_all_of(text: Seq<char>, values: Seq<ValueView>)
    requires
        all_letters(values),
    ensures
        all_of(text, values) == answer(each_occurs(text, values)),
    decreases values.len(),
{
    if values.len() > 0 {
        let rest = values.drop_first();
        assert forall|i: int| 0 <= i < rest.len() implies #[trigger] rest[i] is Letter by {
            assert(rest[i] == values[i + 1]);
        }
        lemma_all_of(text, rest);
        if !occurs_in(values[0]->Letter_0, text) {
        } else if each_occurs(text, rest) {
            assert forall|i: int| 0 <= i < values.len() implies occurs_in(
                (#[trigger] values[i])->Letter_0,
                text,
            ) by {
                if i > 0 {
                    assert(values[i] == rest[i - 1]);
                }
            }
        } else {
            let i = choose|i: int|
                0 <= i < rest.len() && !occurs_in((#[trigger] rest[i])->Letter_0, text);
            assert(values[i + 1] == rest[i]);
        }
    }
}

/// The operator `all` fails only on a value that is no text.
pub proof fn lemma_all_of_fails(text: Seq<char>, values: Seq<ValueView>)
    ensures
        all_of(text, values) matches Err(e) ==> e is NotAString,
    decreases values.len(),
{
    if values.len() > 0 {
        lemma_all_of_fails(text, values.drop_first());
    }
}

/// Applies the operator `all` to an attribute of a message.
pub trait AllOperator<T> {
    /// What `all_ope` gives.
    spec fn all_ope_spec(&self, target: T) -> Answer;

    fn all_ope(&self, target: T) -> (r: Result<bool>)
        ensures
            view_of(r) == self.all_ope_spec(target),
    ;
}

impl AllOperator<&Values> for String {
    open spec fn all_ope_spec(&self, target: &Values) -> Answer {
        all_of(self@, target.deep_view())
    }

    fn all_ope(&self, target: &Values) -> (r: Result<bool>) {
        let ghost values = target.deep_view();
        let mut i: usize = 0;
        assert(values.skip(0) =~= values);
        while i < target.len()
            invariant
                i <= target@.len(),
                values == target.deep_view(),
                all_of(self@, values.skip(i as int)) == all_of(self@, values),
            decreases target@.len() - i,
        {
            assert(values.skip(i as int).drop_first() =~= values.skip(i + 1));
            let part = target[i].ref_a_str()?;
            if !str_contains(self.as_str(), part) {
                return Ok(false);
            }
            i += 1;
        }
        Ok(true)
    }
}

impl AllOperator<&Values> for Option<String> {
    open spec fn all_ope_spec(&self, target: &Values) -> Answer {
        match self {
            Some(self_data) => self_data.all_ope_spec(target),
            None => Err(ErrorView::FalsyValueHosting),
        }
    }

    fn all_ope(&self, target: &Values) -> (r: Result<bool>) {
        if let Some(self_data) = self {
            self_data.all_ope(target)
        } else {
            Err(Error::FalsyValueHosting)
        }
    }
}

} // verus!
