//! Every error that compiling or evaluating a rule can give.

use vstd::prelude::*;

use crate::field::Field;
use crate::lexer::Token;
use crate::matcher::{Value, ValueView};
use crate::ope::Operator;

verus! {

/// The errors of the library.
///
/// A `column` tells where in the rule text the error is. The errors of
/// lexical analysis, `MissingField`, `MissingQuote` and `ParseFailed`, count
/// characters from 1. The errors of syntax analysis, which are the others
/// with a column, give the span of a token, whose start counts from 0.
#[derive(Debug)]
#[allow(inconsistent_fields)]
pub enum Error {
    /// The rule should have ended at this token.
    ShouldEndHere { column: usize },
    /// A `(` was expected at this token.
    ShouldOpenParenthesisHere { column: usize },
    /// A `)` was expected at this token.
    ShouldCloseParenthesisHere { column: usize },
    /// A token has no recorded span.
    MissingPosition { index: usize },
    /// The field does not take the operator.
    UnsupportedOperator { field: Field, operator: Operator },
    /// No field has this name.
    UnknownField { field: String },
    /// No operator has this name.
    UnknownOperator { operator: String },
    /// The value does not suit the field.
    InvalidValue { value: String, field: String },
    /// A field was expected: after `(`, after `and` or after `not`.
    MissingField { column: usize },
    /// An operator was expected: the field before this token takes operators.
    MissingOperator { column: usize },
    /// The field takes operators, and the condition holds none.
    FieldRequireOperator { field: Field },
    /// The condition holds an operator and no value.
    FieldRequireValue { field: Field },
    /// A value was expected.
    MissingValue { column: usize },
    /// A quoted text is not closed on its line.
    MissingQuote { column: usize },
    /// A `"` was expected.
    ShouldQuoteHere { column: usize },
    /// A `}` was expected.
    ShouldCloseBraceHere { column: usize },
    /// A value was expected at this token.
    ShouldValueHere { column: usize },
    /// A `{` or a `"` was expected.
    ShouldOpenBraceOrQuote { column: usize },
    /// A condition was expected.
    MissingCondition { column: usize },
    /// The span of this kind of token cannot be told from the scan position.
    InferPositionFailed { token: Token },
    /// A token has no recorded span.
    MissingTokenPosition { position: usize, token: Token },
    /// A token has no recorded text.
    MissingTokenData { index: usize },
    /// The number at this token does not fit a whole 64-bit number.
    DecimalParseFailed { column: usize },
    /// No token starts at this column.
    ParseFailed { column: usize },
    /// The field is known but cannot be used in a rule.
    FieldNotEnabled { field: Field },
    /// A text was needed and the value is a number.
    NotAString { value: Value },
    /// A number was needed and the value is a text.
    NotADecimal { value: Value },
    /// A value was needed and the list is empty.
    RefValueInEmptyList,
    /// The message lacks the attribute that the field names. This stands
    /// for the lack of an answer, and no rule fails with it.
    FalsyValueHosting,
}

/// The mathematical content of an [`Error`].
#[allow(inconsistent_fields)]
pub enum ErrorView {
    ShouldEndHere { column: usize },
    ShouldOpenParenthesisHere { column: usize },
    ShouldCloseParenthesisHere { column: usize },
    MissingPosition { index: usize },
    UnsupportedOperator { field: Field, operator: Operator },
    UnknownField { field: Seq<char> },
    UnknownOperator { operator: Seq<char> },
    InvalidValue { value: Seq<char>, field: Seq<char> },
    MissingField { column: usize },
    MissingOperator { column: usize },
    FieldRequireOperator { field: Field },
    FieldRequireValue { field: Field },
    MissingValue { column: usize },
    MissingQuote { column: usize },
    ShouldQuoteHere { column: usize },
    ShouldCloseBraceHere { column: usize },
    ShouldValueHere { column: usize },
    ShouldOpenBraceOrQuote { column: usize },
    MissingCondition { column: usize },
    InferPositionFailed { token: Token },
    MissingTokenPosition { position: usize, token: Token },
    MissingTokenData { index: usize },
    DecimalParseFailed { column: usize },
    ParseFailed { column: usize },
    FieldNotEnabled { field: Field },
    NotAString { value: ValueView },
    NotADecimal { value: ValueView },
    RefValueInEmptyList,
    FalsyValueHosting,
}

impl ErrorView {
    /// Whether the error tells of a token without a span, a text or a kind
    /// to go by: a fault of the library, not of a rule.
    pub open spec fn is_bookkeeping(self) -> bool {
        self is MissingPosition || self is MissingTokenPosition || self is MissingTokenData
            || self is InferPositionFailed
    }
}

impl View for Error {
    type V = ErrorView;

    open spec fn view(&self) -> ErrorView {
        match self {
            Error::ShouldEndHere { column } => ErrorView::ShouldEndHere { column: *column },
            Error::ShouldOpenParenthesisHere { column } => ErrorView::ShouldOpenParenthesisHere {
                column: *column,
            },
            Error::ShouldCloseParenthesisHere { column } => ErrorView::ShouldCloseParenthesisHere {
                column: *column,
            },
            Error::MissingPosition { index } => ErrorView::MissingPosition { index: *index },
            Error::UnsupportedOperator { field, operator } => ErrorView::UnsupportedOperator {
                field: *field,
                operator: *operator,
            },
            Error::UnknownField { field } => ErrorView::UnknownField { field: field@ },
            Error::UnknownOperator { operator } => ErrorView::UnknownOperator {
                operator: operator@,
            },
            Error::InvalidValue { value, field } => ErrorView::InvalidValue {
                value: value@,
                field: field@,
            },
            Error::MissingField { column } => ErrorView::MissingField { column: *column },
            Error::MissingOperator { column } => ErrorView::MissingOperator { column: *column },
            Error::FieldRequireOperator { field } => ErrorView::FieldRequireOperator {
                field: *field,
            },
            Error::FieldRequireValue { field } => ErrorView::FieldRequireValue { field: *field },
            Error::MissingValue { column } => ErrorView::MissingValue { column: *column },
            Error::MissingQuote { column } => ErrorView::MissingQuote { column: *column },
            Error::ShouldQuoteHere { column } => ErrorView::ShouldQuoteHere { column: *column },
            Error::ShouldCloseBraceHere { column } => ErrorView::ShouldCloseBraceHere {
                column: *column,
            },
            Error::ShouldValueHere { column } => ErrorView::ShouldValueHere { column: *column },
            Error::ShouldOpenBraceOrQuote { column } => ErrorView::ShouldOpenBraceOrQuote {
                column: *column,
            },
            Error::MissingCondition { column } => ErrorView::MissingCondition { column: *column },
            Error::InferPositionFailed { token } => ErrorView::InferPositionFailed {
                token: *token,
            },
            Error::MissingTokenPosition { position, token } => ErrorView::MissingTokenPosition {
                position: *position,
                token: *token,
            },
            Error::MissingTokenData { index } => ErrorView::MissingTokenData { index: *index },
            Error::DecimalParseFailed { column } => ErrorView::DecimalParseFailed {
                column: *column,
            },
            Error::ParseFailed { column } => ErrorView::ParseFailed { column: *column },
            Error::FieldNotEnabled { field } => ErrorView::FieldNotEnabled { field: *field },
            Error::NotAString { value } => ErrorView::NotAString { value: value@ },
            Error::NotADecimal { value } => ErrorView::NotADecimal { value: value@ },
            Error::RefValueInEmptyList => ErrorView::RefValueInEmptyList,
            Error::FalsyValueHosting => ErrorView::FalsyValueHosting,
        }
    }
}

/// What a test of a message gives: whether it holds, or why it fails.
pub type Answer = core::result::Result<bool, ErrorView>;

/// The answer of a test that does not fail.
pub open spec fn answer(holds: bool) -> Answer {
    Ok(holds)
}

/// A result with its error taken by its view.
pub open spec fn view_of<T>(r: Result<T, Error>) -> Result<T, ErrorView> {
    match r {
        Ok(v) => Ok(v),
        Err(e) => Err(e@),
    }
}

} // verus!
