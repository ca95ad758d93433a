//! The operator `in`: the text is one of the values.

use vstd::prelude::*;

use crate::error::{answer, view_of, Answer, Error, ErrorView};
use crate::result::Result;
use crate::text::{str_eq};
use crate::value::{all_letters, letter_of, RefSingleValue, ValueView, Values};

verus! {

/// Whether `text` is one of `values`.
///
/// The values are read in order, up to the first that decides; one that is
/// read and is no text is an error.
pub open spec fn in_of(text: Seq<char>, values: Seq<ValueView>) -> Answer
    decreases values.len(),
{
    if values.len() == 0 {
        Ok(false)
    } else {
        match letter_of(values[0]) {
            Err(e) => Err(e),
            Ok(part) => if part == text {
                Ok(true)
            } else {
                in_of(text, values.drop_first())
            },
        }
    }
}

/// Whether one of the texts `values` is `text`.
pub open spec fn one_is(text: Seq<char>, values: Seq<ValueView>) -> bool {
    exists|i: int| 0 <= i < values.len() && ((#[trigger] values[i])->Letter_0 == text)
}

/// Of texts, `in` holds exactly where one of them is the text.
pub proof fn lemma_in_of(text: Seq<char>, values: Seq<ValueView>)
    requires
        all_letters(values),
    ensures
        in_of(text, values) == answer(one_is(text, values)),
    decreases values.len(),
{
    if values.len() > 0 {
        let rest = values.drop_first();
        assert forall|i: int| 0 <= i < rest.len() implies #[trigger] rest[i] is Letter by {
            assert(rest[i] == values[i + 1]);
        }
        lemma_in_of(text, rest);
        if (values[0]->Letter_0 == text) {
        } else if one_is(text, rest) {
            let i = choose|i: int| 0 <= i < rest.len() && ((#[trigger] rest[i])->Letter_0 == text);
            assert(values[i + 1] == rest[i]);
        } else {
            assert forall|i: int| 0 <= i < values.len() implies !((
            #[trigger] values[i])->Letter_0 == text) by {
                if i > 0 {
                    assert(values[i] == rest[i - 1]);
                }
            }
        }
    }
}

/// The operator `in` fails only on a value that is no text.
pub proof fn lemma_in_of_fails(text: Seq<char>, values: Seq<ValueView>)
    ensures
        in_of(text, values) matches Err(e) ==> e is NotAString,
    decreases values.len(),
{
    if values.len() > 0 {
        lemma_in_of_fails(text, values.drop_first());
    }
}

/// Applies the operator `in` to an attribute of a message.
pub trait InOperator<T> {
    /// What `in_ope` gives.
    spec fn in_ope_spec(&self, target: T) -> Answer;

    fn in_ope(&self, target: T) -> (r: Result<bool>)
        ensures
            view_of(r) == self.in_ope_spec(target),
    ;
}

impl InOperator<&Values> for String {
    open spec fn in_ope_spec(&self, target: &Values) -> Answer {
        in_of(self@, target.deep_view())
    }

    fn in_ope(&self, target: &Values) -> (r: Result<bool>) {
        let ghost values = target.deep_view();
        let mut i: usize = 0;
        assert(values.skip(0) =~= values);
        while i < target.len()
            invariant
                i <= target@.len(),
                values == target.deep_view(),
                in_of(self@, values.skip(i as int)) == in_of(self@, values),
            decreases target@.len() - i,
        {
            assert(values.skip(i as int).drop_first() =~= values.skip(i + 1));
            let part = target[i].ref_a_str()?;
            if str_eq(part, self.as_str()) {
                return Ok(true);
            }
            i += 1;
        }
        Ok(false)
    }
}

impl InOperator<&Values> for Option<String> {
    open spec fn in_ope_spec(&self, target: &Values) -> Answer {
        match self {
            Some(self_data) => self_data.in_ope_spec(target),
            None => Err(ErrorView::FalsyValueHosting),
        }
    }

    fn in_ope(&self, target: &Values) -> (r: Result<bool>) {
        if let Some(self_data) = self {
            self_data.in_ope(target)
        } else {
            Err(Error::FalsyValueHosting)
        }
    }
}

} // verus!
