//! The values of a condition: whole numbers and texts.

use vstd::prelude::*;

use crate::error::{Error, ErrorView};
use crate::number::{decimal_text, format_decimal};
use crate::result::Result;

verus! {

/// A value on the rule side of a condition.
#[derive(Debug)]
pub enum Value {
    /// A whole number.
    Decimal(i64),
    /// A piece of text.
    Letter(String),
}

/// The mathematical content of a [`Value`].
pub enum ValueView {
    Decimal(i64),
    Letter(Seq<char>),
}

/// The values of one condition, in the order in which the rule lists them.
pub type Values = Vec<Value>;

impl ValueView {
    /// The value as a text: a text as it is, and a number in decimal
    /// notation.
    pub open spec fn text(self) -> Seq<char> {
        match self {
            ValueView::Decimal(number) => decimal_text(number as int),
            ValueView::Letter(text) => text,
        }
    }
}

impl View for Value {
    type V = ValueView;

    open spec fn view(&self) -> ValueView {
        match self {
            Value::Decimal(n) => ValueView::Decimal(*n),
            Value::Letter(s) => ValueView::Letter(s@),
        }
    }
}

impl DeepView for Value {
    type V = ValueView;

    open spec fn deep_view(&self) -> ValueView {
        self@
    }
}

impl Clone for Value {
    fn clone(&self) -> (r: Value) {
        self.duplicate()
    }
}

/// The text of the first value of a list.
pub open spec fn first_letter(values: Seq<ValueView>) -> core::result::Result<
    Seq<char>,
    ErrorView,
> {
    if values.len() == 0 {
        Err(ErrorView::RefValueInEmptyList)
    } else {
        letter_of(values[0])
    }
}

/// The number of the first value of a list.
pub open spec fn first_decimal(values: Seq<ValueView>) -> core::result::Result<i64, ErrorView> {
    if values.len() == 0 {
        Err(ErrorView::RefValueInEmptyList)
    } else {
        number_of(values[0])
    }
}

/// The text of a value.
pub open spec fn letter_of(value: ValueView) -> core::result::Result<Seq<char>, ErrorView> {
    match value {
        ValueView::Letter(text) => Ok(text),
        ValueView::Decimal(_) => Err(ErrorView::NotAString { value }),
    }
}

/// The number of a value.
pub open spec fn number_of(value: ValueView) -> core::result::Result<i64, ErrorView> {
    match value {
        ValueView::Decimal(number) => Ok(number),
        ValueView::Letter(_) => Err(ErrorView::NotADecimal { value }),
    }
}

/// The first value of a list that is no text, if there is one.
pub open spec fn first_number(values: Seq<ValueView>) -> Option<ValueView>
    decreases values.len(),
{
    if values.len() == 0 {
        None
    } else if values[0] is Decimal {
        Some(values[0])
    } else {
        first_number(values.drop_first())
    }
}

/// A list has no first value that is no text exactly if every value is a text.
pub proof fn lemma_first_number(values: Seq<ValueView>)
    ensures
        first_number(values) is None <==> all_letters(values),
        first_number(values) matches Some(value) ==> value is Decimal,
    decreases values.len(),
{
    if values.len() > 0 {
        let rest = values.drop_first();
        lemma_first_number(rest);
        if all_letters(values) {
            assert forall|i: int| 0 <= i < rest.len() implies #[trigger] rest[i] is Letter by {
                assert(rest[i] == values[i + 1]);
            }
        } else if values[0] is Letter && all_letters(rest) {
            assert forall|i: int| 0 <= i < values.len() implies #[trigger] values[i] is Letter by {
                if i > 0 {
                    assert(values[i] == rest[i - 1]);
                }
            }
        }
    }
}

/// Whether every value of a list is a text.
pub open spec fn all_letters(values: Seq<ValueView>) -> bool {
    forall|i: int| 0 <= i < values.len() ==> #[trigger] values[i] is Letter
}

/// Reads a value, or the first value of a list, as a text or as a number.
pub trait RefSingleValue {
    /// What `ref_a_str` gives.
    spec fn a_str(&self) -> core::result::Result<Seq<char>, ErrorView>;

    /// What `ref_a_decimal` gives.
    spec fn a_decimal(&self) -> core::result::Result<i64, ErrorView>;

    /// The text of the value.
    fn ref_a_str(&self) -> (r: Result<&str>)
        ensures
            match self.a_str() {
                Ok(text) => r matches Ok(found) && found@ == text,
                Err(e) => r matches Err(err) && err@ == e,
            },
    ;

    /// The number of the value.
    fn ref_a_decimal(&self) -> (r: Result<&i64>)
        ensures
            match self.a_decimal() {
                Ok(number) => r matches Ok(found) && *found == number,
                Err(e) => r matches Err(err) && err@ == e,
            },
    ;
}

impl RefSingleValue for Value {
    open spec fn a_str(&self) -> core::result::Result<Seq<char>, ErrorView> {
        letter_of(self@)
    }

    open spec fn a_decimal(&self) -> core::result::Result<i64, ErrorView> {
        number_of(self@)
    }

    fn ref_a_str(&self) -> (r: Result<&str>) {
        assert(self.a_str() == letter_of(self@));
        match self {
            Value::Letter(v) => Ok(v.as_str()),
            Value::Decimal(_) => Err(Error::NotAString { value: self.duplicate() }),
        }
    }

    fn ref_a_decimal(&self) -> (r: Result<&i64>) {
        assert(self.a_decimal() == number_of(self@));
        match self {
            Value::Letter(_) => Err(Error::NotADecimal { value: self.duplicate() }),
            Value::Decimal(v) => Ok(v),
        }
    }
}

impl RefSingleValue for Values {
    open spec fn a_str(&self) -> core::result::Result<Seq<char>, ErrorView> {
        first_letter(self.deep_view())
    }

    open spec fn a_decimal(&self) -> core::result::Result<i64, ErrorView> {
        first_decimal(self.deep_view())
    }

    fn ref_a_str(&self) -> (r: Result<&str>) {
        assert(self.a_str() == first_letter(self.deep_view()));
        if self.len() > 0 {
            assert(self[0].a_str() == letter_of(self.deep_view()[0]));
            self[0].ref_a_str()
        } else {
            Err(Error::RefValueInEmptyList)
        }
    }

    fn ref_a_decimal(&self) -> (r: Result<&i64>) {
        assert(self.a_decimal() == first_decimal(self.deep_view()));
        if self.len() > 0 {
            assert(self[0].a_decimal() == number_of(self.deep_view()[0]));
            self[0].ref_a_decimal()
        } else {
            Err(Error::RefValueInEmptyList)
        }
    }
}

impl Value {
    /// A copy of the value.
    pub fn duplicate(&self) -> (r: Value)
        ensures
            r@ == self@,
    {
        match self {
            Value::Decimal(n) => Value::Decimal(*n),
            Value::Letter(s) => Value::Letter(s.clone()),
        }
    }

    /// The value as a text: a text as it is, and a number in decimal
    /// notation.
    pub fn to_string(&self) -> (r: String)
        ensures
            r@ == self@.text(),
    {
        match self {
            Value::Letter(v) => v.clone(),
            Value::Decimal(v) => format_decimal(*v),
        }
    }

    /// Makes a text value out of a string slice.
    pub fn from_str(value_s: &str) -> (r: Value)
        ensures
            r@ == ValueView::Letter(value_s@),
    {
        Value::Letter(value_s.to_owned())
    }
}

} // verus!
