//! The lexical grammar of rule text, as a function from characters to tokens.
//!
//! White space, which is the space and the line feed, separates tokens and
//! is otherwise skipped. Between conditions the tokens are `(`, `)`, `{`,
//! `}`, quoted texts, numbers and the keywords. The words `and`, `or` and
//! `not` are keywords only where a white space follows them.
//!
//! After `(` and after the keyword `and` stands the head of a condition: an
//! optional `not`, the field, and the operator. A field and an operator are
//! words: runs of characters up to the next white space or `)`. So a field
//! may begin like a keyword, as `order` does, and may even be `and` or `or`;
//! only `not` before a white space is never a field. The word after the
//! field is the operator, whatever it is, unless it is `and` before a white
//! space, which begins the next condition.

use vstd::prelude::*;

use crate::error::Error;
use crate::lexer::Token;

verus! {

/// A token with its span in the rule text.
pub struct Lexeme {
    pub token: Token,
    pub begin: int,
    pub end: int,
}

impl Lexeme {
    /// The characters of the rule text that the token spans.
    pub open spec fn text(self, input: Seq<char>) -> Seq<char> {
        input.subrange(self.begin, self.end)
    }
}

/// The classes of character that a scan can run over.
#[derive(Debug, PartialEq, Eq, Structural, Copy, Clone)]
pub enum CharClass {
    /// A space or a line feed.
    WhiteSpace,
    /// Anything but white space and `)`: the characters of a field or an operator.
    Word,
    /// A decimal digit.
    Digit,
    /// Anything but `"` and a line feed: the characters of a quoted text.
    Letter,
}

/// Whether the character is a space or a line feed.
pub open spec fn is_white_space(c: char) -> bool {
    c == ' ' || c == '\n'
}

/// Whether the character is a decimal digit.
pub open spec fn is_digit(c: char) -> bool {
    '0' <= c && c <= '9'
}

impl CharClass {
    /// Whether the class holds the character.
    pub open spec fn holds(self, c: char) -> bool {
        match self {
            CharClass::WhiteSpace => is_white_space(c),
            CharClass::Word => c != ')' && !is_white_space(c),
            CharClass::Digit => is_digit(c),
            CharClass::Letter => c != '"' && c != '\n',
        }
    }

    /// Tells whether the class holds the character.
    pub fn accepts(self, c: char) -> (r: bool)
        ensures
            r == self.holds(c),
    {
        match self {
            CharClass::WhiteSpace => c == ' ' || c == '\n',
            CharClass::Word => c != ')' && c != ' ' && c != '\n',
            CharClass::Digit => '0' <= c && c <= '9',
            CharClass::Letter => c != '"' && c != '\n',
        }
    }
}

/// The end of the longest run of characters of `class` that starts at `pos`:
/// the first position from `pos` on that holds another character, or none.
pub open spec fn run_end(input: Seq<char>, pos: int, class: CharClass) -> int
    decreases input.len() - pos,
{
    if 0 <= pos < input.len() && class.holds(input[pos]) {
        run_end(input, pos + 1, class)
    } else {
        pos
    }
}

/// A run ends at or after its start, and inside the text if it starts there.
pub proof fn lemma_run_end_bounds(input: Seq<char>, pos: int, class: CharClass)
    ensures
        pos <= run_end(input, pos, class),
        pos <= input.len() ==> run_end(input, pos, class) <= input.len(),
    decreases input.len() - pos,
{
    if 0 <= pos < input.len() && class.holds(input[pos]) {
        lemma_run_end_bounds(input, pos + 1, class);
    }
}

/// A run holds characters of its class only, and stops at the first other character.
pub proof fn lemma_run_end_holds(input: Seq<char>, pos: int, class: CharClass)
    requires
        0 <= pos,
    ensures
        forall|i: int| pos <= i < run_end(input, pos, class) ==> class.holds(#[trigger] input[i]),
        run_end(input, pos, class) < input.len() ==> !class.holds(
            input[run_end(input, pos, class)],
        ),
    decreases input.len() - pos,
{
    if pos < input.len() && class.holds(input[pos]) {
        lemma_run_end_holds(input, pos + 1, class);
    }
}

/// The end of a run is the only position that the whole run leads up to.
pub proof fn lemma_run_end_is(input: Seq<char>, pos: int, end: int, class: CharClass)
    requires
        0 <= pos <= end <= input.len(),
        forall|i: int| pos <= i < end ==> class.holds(#[trigger] input[i]),
        end < input.len() ==> !class.holds(input[end]),
    ensures
        run_end(input, pos, class) == end,
    decreases end - pos,
{
    if pos < end {
        lemma_run_end_is(input, pos + 1, end, class);
    }
}

/// Whether the character at `pos` is `c`.
pub open spec fn char_is(input: Seq<char>, pos: int, c: char) -> bool {
    0 <= pos < input.len() && input[pos] == c
}

/// Whether a white space stands at `pos`.
pub open spec fn space_at(input: Seq<char>, pos: int) -> bool {
    0 <= pos < input.len() && is_white_space(input[pos])
}

/// Whether the keyword `and`, with the white space that must follow it, starts at `pos`.
pub open spec fn and_at(input: Seq<char>, pos: int) -> bool {
    char_is(input, pos, 'a') && char_is(input, pos + 1, 'n') && char_is(input, pos + 2, 'd')
        && space_at(input, pos + 3)
}

/// Whether the keyword `or`, with the white space that must follow it, starts at `pos`.
pub open spec fn or_at(input: Seq<char>, pos: int) -> bool {
    char_is(input, pos, 'o') && char_is(input, pos + 1, 'r') && space_at(input, pos + 2)
}

/// Whether the keyword `not`, with the white space that must follow it, starts at `pos`.
pub open spec fn not_at(input: Seq<char>, pos: int) -> bool {
    char_is(input, pos, 'n') && char_is(input, pos + 1, 'o') && char_is(input, pos + 2, 't')
        && space_at(input, pos + 3)
}

/// Whether a number may end before `pos`: at a white space, a `}` or a `)`.
pub open spec fn closes_number(input: Seq<char>, pos: int) -> bool {
    space_at(input, pos) || char_is(input, pos, '}') || char_is(input, pos, ')')
}

/// The number that starts at `pos`, if one does.
///
/// A number is an optional `-`, digits, and optionally a `.` with digits
/// after it; it must end where [`closes_number`] holds.
pub open spec fn lex_number(input: Seq<char>, pos: int) -> Option<Lexeme> {
    let digits = if char_is(input, pos, '-') {
        pos + 1
    } else {
        pos
    };
    let whole = run_end(input, digits, CharClass::Digit);
    let fraction = run_end(input, whole + 1, CharClass::Digit);
    if whole > digits && closes_number(input, whole) {
        Some(Lexeme { token: Token::Integer, begin: pos, end: whole })
    } else if whole > digits && char_is(input, whole, '.') && fraction > whole + 1
        && closes_number(input, fraction) {
        Some(Lexeme { token: Token::Decimal, begin: pos, end: fraction })
    } else {
        None
    }
}

/// The tokens of the head of a condition, which follows `(` or `and`, and the
/// position after them.
///
/// The head is an optional `not`, a field, and an operator unless the field
/// is followed by `)`, by `and` or by nothing.
pub open spec fn lex_condition(input: Seq<char>, pos: int) -> Result<(Seq<Lexeme>, int), Error> {
    let start = run_end(input, pos, CharClass::WhiteSpace);
    let negated = not_at(input, start);
    let field = if negated {
        run_end(input, start + 3, CharClass::WhiteSpace)
    } else {
        start
    };
    let field_end = run_end(input, field, CharClass::Word);
    let operator = run_end(input, field_end, CharClass::WhiteSpace);
    let operator_end = run_end(input, operator, CharClass::Word);
    let negation = if negated {
        seq![Lexeme { token: Token::Not, begin: start, end: start + 3 }]
    } else {
        seq![]
    };
    let named = negation.push(Lexeme { token: Token::Field, begin: field, end: field_end });
    if field_end == field {
        Err(Error::MissingField { column: (field + 1) as usize })
    } else if and_at(input, operator) || operator_end == operator {
        Ok((named, operator))
    } else {
        Ok(
            (
                named.push(Lexeme { token: Token::Operator, begin: operator, end: operator_end }),
                operator_end,
            ),
        )
    }
}

/// The head of a condition ends after its start, and inside the text.
pub proof fn lemma_condition_advances(input: Seq<char>, pos: int)
    requires
        0 <= pos <= input.len(),
    ensures
        lex_condition(input, pos) matches Ok((_, next)) ==> pos < next <= input.len(),
{
    let start = run_end(input, pos, CharClass::WhiteSpace);
    lemma_run_end_bounds(input, pos, CharClass::WhiteSpace);
    let field = if not_at(input, start) {
        run_end(input, start + 3, CharClass::WhiteSpace)
    } else {
        start
    };
    lemma_run_end_bounds(input, start + 3, CharClass::WhiteSpace);
    let field_end = run_end(input, field, CharClass::Word);
    lemma_run_end_bounds(input, field, CharClass::Word);
    let operator = run_end(input, field_end, CharClass::WhiteSpace);
    lemma_run_end_bounds(input, field_end, CharClass::WhiteSpace);
    lemma_run_end_bounds(input, operator, CharClass::Word);
}

/// A number ends after its start, and inside the text.
pub proof fn lemma_number_advances(input: Seq<char>, pos: int)
    requires
        0 <= pos <= input.len(),
    ensures
        lex_number(input, pos) matches Some(number) ==> number.begin == pos && pos < number.end
            < input.len(),
{
    let digits = if char_is(input, pos, '-') {
        pos + 1
    } else {
        pos
    };
    let whole = run_end(input, digits, CharClass::Digit);
    lemma_run_end_bounds(input, digits, CharClass::Digit);
    lemma_run_end_bounds(input, whole + 1, CharClass::Digit);
}

/// Puts `head` before the tokens of `tail`, and keeps the error of `tail`.
pub open spec fn prepend(head: Seq<Lexeme>, tail: Result<Seq<Lexeme>, Error>) -> Result<
    Seq<Lexeme>,
    Error,
> {
    match tail {
        Ok(rest) => Ok(head + rest),
        Err(e) => Err(e),
    }
}

/// A token of one character at `pos`.
pub open spec fn mark(token: Token, pos: int) -> Lexeme {
    Lexeme { token, begin: pos, end: pos + 1 }
}

/// The tokens of the rule text from `pos` on, or the first error.
pub open spec fn lex_from(input: Seq<char>, pos: int) -> Result<Seq<Lexeme>, Error>
    decreases input.len() - pos,
{
    let at = run_end(input, pos, CharClass::WhiteSpace);
    proof {
        lemma_run_end_bounds(input, pos, CharClass::WhiteSpace);
    }
    if !(0 <= at < input.len()) {
        Ok(seq![Lexeme { token: Token::EOF, begin: input.len() as int, end: input.len() as int }])
    } else if input[at] == '(' {
        match lex_condition(input, at + 1) {
            Err(e) => Err(e),
            Ok((head, next)) => {
                proof {
                    lemma_condition_advances(input, at + 1);
                }
                prepend(seq![mark(Token::OpenParenthesis, at)] + head, lex_from(input, next))
            },
        }
    } else if input[at] == ')' {
        prepend(seq![mark(Token::CloseParenthesis, at)], lex_from(input, at + 1))
    } else if input[at] == '{' {
        prepend(seq![mark(Token::OpenBrace, at)], lex_from(input, at + 1))
    } else if input[at] == '}' {
        prepend(seq![mark(Token::CloseBrace, at)], lex_from(input, at + 1))
    } else if input[at] == '"' {
        let close = run_end(input, at + 1, CharClass::Letter);
        proof {
            lemma_run_end_bounds(input, at + 1, CharClass::Letter);
        }
        if close > at + 1 && char_is(input, close, '"') {
            prepend(
                seq![
                    mark(Token::Quote, at),
                    Lexeme { token: Token::Letter, begin: at + 1, end: close },
                    mark(Token::Quote, close),
                ],
                lex_from(input, close + 1),
            )
        } else {
            Err(Error::MissingQuote { column: (at + 2) as usize })
        }
    } else if and_at(input, at) {
        match lex_condition(input, at + 3) {
            Err(e) => Err(e),
            Ok((head, next)) => {
                proof {
                    lemma_condition_advances(input, at + 3);
                }
                prepend(
                    seq![Lexeme { token: Token::And, begin: at, end: at + 3 }] + head,
                    lex_from(input, next),
                )
            },
        }
    } else if or_at(input, at) {
        prepend(seq![Lexeme { token: Token::Or, begin: at, end: at + 2 }], lex_from(input, at + 2))
    } else if not_at(input, at) {
        prepend(
            seq![Lexeme { token: Token::Not, begin: at, end: at + 3 }],
            lex_from(input, at + 3),
        )
    } else {
        match lex_number(input, at) {
            Some(number) => {
                proof {
                    lemma_number_advances(input, at);
                }
                prepend(seq![number], lex_from(input, number.end))
            },
            None => Err(Error::ParseFailed { column: (at + 1) as usize }),
        }
    }
}

/// The tokens of a rule text, or the first error.
pub open spec fn lex(input: Seq<char>) -> Result<Seq<Lexeme>, Error> {
    lex_from(input, 0)
}

/// Leading white space does not change what is found from a position on.
pub proof fn lemma_lex_from_skips(input: Seq<char>, pos: int)
    requires
        0 <= pos <= input.len(),
    ensures
        lex_from(input, run_end(input, pos, CharClass::WhiteSpace)) == lex_from(input, pos),
{
    let at = run_end(input, pos, CharClass::WhiteSpace);
    lemma_run_end_bounds(input, pos, CharClass::WhiteSpace);
    lemma_run_end_holds(input, pos, CharClass::WhiteSpace);
    assert(run_end(input, at, CharClass::WhiteSpace) == at);
}

/// Tokens put before a result can be put there in two steps.
pub proof fn lemma_prepend_twice(
    first: Seq<Lexeme>,
    second: Seq<Lexeme>,
    tail: Result<Seq<Lexeme>, Error>,
)
    ensures
        prepend(first, prepend(second, tail)) == prepend(first + second, tail),
{
    if let Ok(rest) = tail {
        assert(first + (second + rest) =~= (first + second) + rest);
    }
}

/// Whether the tokens are a stretch of a rule text between `from` and `to`:
/// none is the end token, each lies between the two positions, and each
/// begins where the one before has ended, or later.
pub open spec fn stretch(lexemes: Seq<Lexeme>, from: int, to: int) -> bool {
    &&& forall|i: int|
        0 <= i < lexemes.len() ==> (#[trigger] lexemes[i]).token != Token::EOF && from
            <= lexemes[i].begin <= lexemes[i].end <= to
    &&& forall|i: int, j: int|
        0 <= i < j < lexemes.len() ==> (#[trigger] lexemes[i]).end <= (#[trigger] lexemes[j]).begin
}

/// Whether the tokens are such as a rule text gives from `from` on: they
/// end with the end token and hold no other, each lies in the text after
/// `from`, and each begins where the one before has ended, or later.
pub open spec fn complete(lexemes: Seq<Lexeme>, input: Seq<char>, from: int) -> bool {
    &&& lexemes.len() > 0
    &&& forall|i: int|
        0 <= i < lexemes.len() ==> ((#[trigger] lexemes[i]).token == Token::EOF <==> i
            == lexemes.len() - 1)
    &&& forall|i: int|
        0 <= i < lexemes.len() ==> from <= (#[trigger] lexemes[i]).begin <= lexemes[i].end
            <= input.len()
    &&& forall|i: int, j: int|
        0 <= i < j < lexemes.len() ==> (#[trigger] lexemes[i]).end <= (#[trigger] lexemes[j]).begin
}

/// The head of a condition is a stretch between its start and its end.
pub proof fn lemma_condition_stretch(input: Seq<char>, pos: int)
    requires
        0 <= pos <= input.len(),
    ensures
        lex_condition(input, pos) matches Ok((head, next)) ==> stretch(head, pos, next),
{
    let start = run_end(input, pos, CharClass::WhiteSpace);
    lemma_run_end_bounds(input, pos, CharClass::WhiteSpace);
    let field = if not_at(input, start) {
        run_end(input, start + 3, CharClass::WhiteSpace)
    } else {
        start
    };
    lemma_run_end_bounds(input, start + 3, CharClass::WhiteSpace);
    let field_end = run_end(input, field, CharClass::Word);
    lemma_run_end_bounds(input, field, CharClass::Word);
    let operator = run_end(input, field_end, CharClass::WhiteSpace);
    lemma_run_end_bounds(input, field_end, CharClass::WhiteSpace);
    lemma_run_end_bounds(input, operator, CharClass::Word);
}

/// A stretch before complete tokens makes complete tokens.
pub proof fn lemma_stretch_then_complete(
    head: Seq<Lexeme>,
    rest: Seq<Lexeme>,
    input: Seq<char>,
    from: int,
    to: int,
)
    requires
        from <= to,
        stretch(head, from, to),
        complete(rest, input, to),
    ensures
        complete(head + rest, input, from),
{
    let all = head + rest;
    assert(to <= rest[0].begin <= input.len());
    assert forall|i: int| 0 <= i < all.len() implies ((#[trigger] all[i]).token == Token::EOF
        <==> i == all.len() - 1) && from <= all[i].begin <= all[i].end <= input.len() by {
        if i >= head.len() {
            assert(all[i] == rest[i - head.len()]);
        } else {
            assert(all[i] == head[i]);
        }
    }
    assert forall|i: int, j: int| 0 <= i < j < all.len() implies (#[trigger] all[i]).end <= (
    #[trigger] all[j]).begin by {
        if i >= head.len() {
            assert(all[i] == rest[i - head.len()]);
        } else {
            assert(all[i] == head[i]);
        }
        if j >= head.len() {
            assert(all[j] == rest[j - head.len()]);
        } else {
            assert(all[j] == head[j]);
        }
    }
}

/// The tokens of a rule text end with the end token and hold no other; each
/// lies in the text, and each begins where the one before has ended, or
/// later. A rule text without tokens lacks a field or a closing quote, or
/// holds a character that starts no token.
pub proof fn lemma_lex_from_complete(input: Seq<char>, pos: int)
    requires
        0 <= pos <= input.len(),
    ensures
        match lex_from(input, pos) {
            Ok(lexemes) => complete(lexemes, input, pos),
            Err(e) => e is MissingField || e is MissingQuote || e is ParseFailed,
        },
    decreases input.len() - pos,
{
    let at = run_end(input, pos, CharClass::WhiteSpace);
    lemma_run_end_bounds(input, pos, CharClass::WhiteSpace);
    if !(0 <= at < input.len()) {
    } else if input[at] == '(' {
        lemma_condition_advances(input, at + 1);
        lemma_condition_stretch(input, at + 1);
        if let Ok((head, next)) = lex_condition(input, at + 1) {
            lemma_lex_from_complete(input, next);
            if let Ok(rest) = lex_from(input, next) {
                let first = seq![mark(Token::OpenParenthesis, at)] + head;
                assert(stretch(first, pos, next)) by {
                    assert forall|i: int| 0 <= i < first.len() implies (#[trigger] first[i]).token
                        != Token::EOF && pos <= first[i].begin <= first[i].end <= next by {
                        if i > 0 {
                            assert(first[i] == head[i - 1]);
                        }
                    }
                    assert forall|i: int, j: int| 0 <= i < j < first.len() implies (
                    #[trigger] first[i]).end <= (#[trigger] first[j]).begin by {
                        assert(first[j] == head[j - 1]);
                        if i > 0 {
                            assert(first[i] == head[i - 1]);
                        }
                    }
                }
                lemma_stretch_then_complete(first, rest, input, pos, next);
            }
        }
    } else if input[at] == ')' || input[at] == '{' || input[at] == '}' {
        lemma_lex_from_complete(input, at + 1);
        if let Ok(rest) = lex_from(input, at + 1) {
            let token = if input[at] == ')' {
                Token::CloseParenthesis
            } else if input[at] == '{' {
                Token::OpenBrace
            } else {
                Token::CloseBrace
            };
            lemma_stretch_then_complete(seq![mark(token, at)], rest, input, pos, at + 1);
        }
    } else if input[at] == '"' {
        let close = run_end(input, at + 1, CharClass::Letter);
        lemma_run_end_bounds(input, at + 1, CharClass::Letter);
        if close > at + 1 && char_is(input, close, '"') {
            lemma_lex_from_complete(input, close + 1);
            if let Ok(rest) = lex_from(input, close + 1) {
                let first = seq![
                    mark(Token::Quote, at),
                    Lexeme { token: Token::Letter, begin: at + 1, end: close },
                    mark(Token::Quote, close),
                ];
                lemma_stretch_then_complete(first, rest, input, pos, close + 1);
            }
        }
    } else if and_at(input, at) {
        lemma_condition_advances(input, at + 3);
        lemma_condition_stretch(input, at + 3);
        if let Ok((head, next)) = lex_condition(input, at + 3) {
            lemma_lex_from_complete(input, next);
            if let Ok(rest) = lex_from(input, next) {
                let first = seq![Lexeme { token: Token::And, begin: at, end: at + 3 }] + head;
                assert(stretch(first, pos, next)) by {
                    assert forall|i: int| 0 <= i < first.len() implies (#[trigger] first[i]).token
                        != Token::EOF && pos <= first[i].begin <= first[i].end <= next by {
                        if i > 0 {
                            assert(first[i] == head[i - 1]);
                        }
                    }
                    assert forall|i: int, j: int| 0 <= i < j < first.len() implies (
                    #[trigger] first[i]).end <= (#[trigger] first[j]).begin by {
                        assert(first[j] == head[j - 1]);
                        if i > 0 {
                            assert(first[i] == head[i - 1]);
                        }
                    }
                }
                lemma_stretch_then_complete(first, rest, input, pos, next);
            }
        }
    } else if or_at(input, at) {
        lemma_lex_from_complete(input, at + 2);
        if let Ok(rest) = lex_from(input, at + 2) {
            lemma_stretch_then_complete(
                seq![Lexeme { token: Token::Or, begin: at, end: at + 2 }],
                rest,
                input,
                pos,
                at + 2,
            );
        }
    } else if not_at(input, at) {
        lemma_lex_from_complete(input, at + 3);
        if let Ok(rest) = lex_from(input, at + 3) {
            lemma_stretch_then_complete(
                seq![Lexeme { token: Token::Not, begin: at, end: at + 3 }],
                rest,
                input,
                pos,
                at + 3,
            );
        }
    } else {
        lemma_number_advances(input, at);
        if let Some(number) = lex_number(input, at) {
            lemma_lex_from_complete(input, number.end);
            if let Ok(rest) = lex_from(input, number.end) {
                lemma_stretch_then_complete(seq![number], rest, input, pos, number.end);
            }
        }
    }
}

/// The tokens of a rule text end with the end token and hold no other; each
/// lies in the text, and each begins where the one before has ended, or
/// later. A rule text without tokens lacks a field or a closing quote, or
/// holds a character that starts no token.
pub proof fn lemma_lex_complete(input: Seq<char>)
    ensures
        match lex(input) {
            Ok(lexemes) => complete(lexemes, input, 0),
            Err(e) => e is MissingField || e is MissingQuote || e is ParseFailed,
        },
{
    lemma_lex_from_complete(input, 0);
}

} // verus!
