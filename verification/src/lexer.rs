//! The lexical analysis of rule text.

use vstd::prelude::*;
use vstd::slice::slice_subrange;

use crate::error::Error;
use crate::lexical::{
    and_at, char_is, closes_number, lemma_condition_advances, lemma_lex_from_skips,
    lemma_number_advances, lemma_prepend_twice, lemma_run_end_bounds, lemma_run_end_holds,
    lemma_run_end_is, lex, lex_condition, lex_from, lex_number, mark, not_at, or_at, prepend,
    run_end, space_at, CharClass, Lexeme,
};
use crate::result::Result;
use crate::text::string_of;

verus! {

/// The kinds of token.
#[derive(Debug, PartialEq, Eq, Structural, Copy, Clone)]
pub enum Token {
    /// `(`
    OpenParenthesis,
    /// `)`
    CloseParenthesis,
    /// The name of a field.
    Field,
    /// The name of an operator.
    Operator,
    /// `{`
    OpenBrace,
    /// `}`
    CloseBrace,
    /// `"`
    Quote,
    /// The text between two quotes.
    Letter,
    /// A whole number.
    Integer,
    /// A number with a fraction.
    Decimal,
    /// The keyword `and`.
    And,
    /// The keyword `or`.
    Or,
    /// The keyword `not`.
    Not,
    /// The end of the rule.
    EOF,
}

/// The span of a token in the rule text, `begin` included and `end` excluded.
#[derive(Debug, PartialEq, Eq, Structural, Copy, Clone)]
pub struct Position {
    pub begin: usize,
    pub end: usize,
}

impl Token {
    /// The number of characters of a token whose text is fixed. The other
    /// kinds, whose text varies, count as 0.
    pub open spec fn width(self) -> int {
        match self {
            Token::OpenParenthesis
            | Token::CloseParenthesis
            | Token::OpenBrace
            | Token::CloseBrace
            | Token::Quote => 1,
            Token::Or => 2,
            Token::And | Token::Not => 3,
            _ => 0,
        }
    }

    /// The number of characters of a token whose text is fixed, and 0 for
    /// the other kinds.
    pub fn len(self) -> (r: usize)
        ensures
            r == self.width(),
    {
        match self {
            Token::OpenParenthesis
            | Token::CloseParenthesis
            | Token::OpenBrace
            | Token::CloseBrace
            | Token::Quote => 1,
            Token::Or => 2,
            Token::And | Token::Not => 3,
            _ => 0,
        }
    }
}

// The tokens that an analysis has found, and the span of each.
#[derive(Debug)]
struct Found {
    tokens: Vec<Token>,
    positions: Vec<Position>,
}

impl Found {
    // Every token has a span.
    spec fn paired(&self) -> bool {
        self.tokens@.len() == self.positions@.len()
    }

    // The tokens, each with its span.
    spec fn lexemes(&self) -> Seq<Lexeme> {
        Seq::new(
            self.tokens@.len(),
            |i: int|
                Lexeme {
                    token: self.tokens@[i],
                    begin: self.positions@[i].begin as int,
                    end: self.positions@[i].end as int,
                },
        )
    }

    // Nothing found.
    fn new() -> (r: Found)
        ensures
            r.paired(),
            r.lexemes() == Seq::<Lexeme>::empty(),
    {
        let r = Found { tokens: Vec::new(), positions: Vec::new() };
        assert(r.lexemes() =~= Seq::<Lexeme>::empty());
        r
    }

    // Records a token with its span.
    fn push(&mut self, token: Token, position: Position)
        requires
            old(self).paired(),
        ensures
            final(self).paired(),
            final(self).tokens@ == old(self).tokens@.push(token),
            final(self).positions@ == old(self).positions@.push(position),
            final(self).lexemes() == old(self).lexemes().push(
                Lexeme { token, begin: position.begin as int, end: position.end as int },
            ),
    {
        self.positions.push(position);
        self.tokens.push(token);
        assert(self.lexemes() =~= old(self).lexemes().push(
            Lexeme { token, begin: position.begin as int, end: position.end as int },
        ));
    }
}

/// The lexical analyser of one rule text.
///
/// Every token that it holds has a span inside the rule text, and a
/// finished analysis holds exactly the tokens of the text.
#[derive(Debug)]
pub struct Lexer<'a> {
    // The rule text.
    input: &'a [char],
    // Where the scan stands.
    pos: usize,
    // The tokens found so far.
    found: Found,
}

impl<'a> Lexer<'a> {
    /// The rule text.
    pub closed spec fn text(&self) -> Seq<char> {
        self.input@
    }

    /// The tokens found so far, each with its span.
    pub closed spec fn lexemes(&self) -> Seq<Lexeme> {
        self.found.lexemes()
    }

    /// Whether the analysis has run to the end of the rule text.
    pub open spec fn finished(&self) -> bool {
        self.lexemes().len() > 0 && self.lexemes().last().token == Token::EOF
    }

    // Every token has a span, every span lies in the rule text, and a
    // finished analysis holds the tokens of the text.
    #[verifier::type_invariant]
    closed spec fn inv(&self) -> bool {
        &&& self.input@.len() < usize::MAX
        &&& self.found.paired()
        &&& forall|i: int|
            0 <= i < self.found.positions@.len() ==> (#[trigger] self.found.positions@[i]).begin
                <= self.found.positions@[i].end <= self.input@.len()
        &&& self.finished() ==> Ok::<Seq<Lexeme>, Error>(self.lexemes()) == lex(self.input@)
    }

    // The state in the middle of a scan: nothing found is the end of the rule.
    closed spec fn scanning(&self) -> bool {
        &&& self.inv()
        &&& self.pos <= self.input@.len()
        &&& forall|i: int|
            0 <= i < self.found.tokens@.len() ==> #[trigger] self.found.tokens@[i] != Token::EOF
    }

    /// Makes an analyser of the rule text, with nothing scanned yet.
    pub fn new(input: &'a [char]) -> (r: Self)
        requires
            input@.len() < usize::MAX,
        ensures
            r.text() == input@,
            r.lexemes() == Seq::<Lexeme>::empty(),
    {
        Self { input, pos: 0, found: Found::new() }
    }

    /// The rule text.
    pub fn input(&self) -> (r: &'a [char])
        ensures
            r@ == self.text(),
    {
        self.input
    }

    /// The tokens found so far.
    pub fn output(&self) -> (r: &Vec<Token>)
        ensures
            r@.len() == self.lexemes().len(),
            forall|i: int| 0 <= i < r@.len() ==> r@[i] == #[trigger] self.lexemes()[i].token,
    {
        &self.found.tokens
    }

    /// The spans of the tokens found so far. Each lies in the rule text.
    pub fn positions(&self) -> (r: &Vec<Position>)
        ensures
            r@.len() == self.lexemes().len(),
            forall|i: int|
                0 <= i < r@.len() ==> r@[i].begin == (#[trigger] self.lexemes()[i]).begin
                    && r@[i].end == self.lexemes()[i].end && r@[i].begin <= r@[i].end
                    <= self.text().len(),
    {
        proof {
            use_type_invariant(self);
        }
        &self.found.positions
    }

    /// Tells whether the analysis has run to the end of the rule text, as
    /// it has when it holds the tokens of the text.
    pub fn is_end(&self) -> (r: bool)
        ensures
            r == self.finished(),
            r ==> lex(self.text()) == Ok::<Seq<Lexeme>, Error>(self.lexemes()),
    {
        proof {
            use_type_invariant(self);
        }
        let n = self.found.tokens.len();
        n > 0 && self.found.tokens[n - 1] == Token::EOF
    }
}

impl<'a> Lexer<'a> {
    // The character at `pos`, if the rule text is that long.
    fn at_char(&self, pos: usize) -> (c: Option<char>)
        ensures
            c == (if pos < self.input@.len() {
                Some(self.input@[pos as int])
            } else {
                None::<char>
            }),
    {
        if pos < self.input.len() {
            Some(self.input[pos])
        } else {
            None
        }
    }

    // Tells whether `c` stands `offset` characters after the scan position.
    fn ahead_is(&self, offset: usize, c: char) -> (r: bool)
        requires
            self.pos <= self.input@.len(),
        ensures
            r == char_is(self.input@, self.pos + offset, c),
    {
        offset < self.input.len() - self.pos && self.input[self.pos + offset] == c
    }

    // Tells whether a white space stands `offset` characters after the scan position.
    fn ahead_is_space(&self, offset: usize) -> (r: bool)
        requires
            self.pos <= self.input@.len(),
        ensures
            r == space_at(self.input@, self.pos + offset),
    {
        offset < self.input.len() - self.pos && CharClass::WhiteSpace.accepts(
            self.input[self.pos + offset],
        )
    }

    // Tells whether a number may end `offset` characters after the scan position.
    fn ahead_closes_number(&self, offset: usize) -> (r: bool)
        requires
            self.pos <= self.input@.len(),
        ensures
            r == closes_number(self.input@, self.pos + offset),
    {
        self.ahead_is_space(offset) || self.ahead_is(offset, '}') || self.ahead_is(offset, ')')
    }

    // The end of the run of characters of `class` that starts at `from`.
    fn scan_at(&self, from: usize, class: CharClass) -> (end: usize)
        requires
            from <= self.input@.len(),
        ensures
            end == run_end(self.input@, from as int, class),
            from <= end <= self.input@.len(),
    {
        let mut end = from;
        while end < self.input.len() && class.accepts(self.input[end])
            invariant
                from <= end <= self.input@.len(),
                forall|i: int| from <= i < end ==> class.holds(#[trigger] self.input@[i]),
            decreases self.input@.len() - end,
        {
            end += 1;
        }
        proof {
            lemma_run_end_is(self.input@, from as int, end as int, class);
        }
        end
    }

    // Moves the scan position to `pos`.
    fn scan(&mut self, pos: usize)
        requires
            old(self).scanning(),
            pos <= old(self).input@.len(),
        ensures
            final(self).scanning(),
            final(self).input@ == old(self).input@,
            final(self).lexemes() == old(self).lexemes(),
            final(self).pos == pos,
    {
        proof {
            use_type_invariant(&*self);
        }
        self.pos = pos;
    }

    // Moves the scan position over white space, and returns how many
    // characters it passed.
    fn skip_white_space(&mut self) -> (skipped: usize)
        requires
            old(self).scanning(),
        ensures
            final(self).scanning(),
            final(self).input@ == old(self).input@,
            final(self).lexemes() == old(self).lexemes(),
            final(self).pos == run_end(
                old(self).input@,
                old(self).pos as int,
                CharClass::WhiteSpace,
            ),
            skipped == final(self).pos - old(self).pos,
    {
        let begin = self.pos;
        let end = self.scan_at(begin, CharClass::WhiteSpace);
        self.scan(end);
        end - begin
    }

    // Records a token with its span.
    fn push_token_position(&mut self, token: Token, position: Position)
        requires
            old(self).scanning(),
            token != Token::EOF,
            position.begin <= position.end <= old(self).input@.len(),
        ensures
            final(self).scanning(),
            final(self).input@ == old(self).input@,
            final(self).pos == old(self).pos,
            final(self).lexemes() == old(self).lexemes().push(
                Lexeme { token, begin: position.begin as int, end: position.end as int },
            ),
    {
        proof {
            use_type_invariant(&*self);
        }
        let mut found = Found::new();
        core::mem::swap(&mut found, &mut self.found);
        found.push(token, position);
        self.found = found;
    }

    // Records a token of fixed text that starts at the scan position, and
    // moves the scan position past it.
    fn push_token(&mut self, token: Token)
        requires
            old(self).scanning(),
            token.width() > 0,
            old(self).pos + token.width() <= old(self).input@.len(),
        ensures
            final(self).scanning(),
            final(self).input@ == old(self).input@,
            final(self).pos == old(self).pos + token.width(),
            final(self).lexemes() == old(self).lexemes().push(
                Lexeme {
                    token,
                    begin: old(self).pos as int,
                    end: old(self).pos + token.width(),
                },
            ),
    {
        let begin = self.pos;
        let end = begin + token.len();
        self.push_token_position(token, Position { begin, end });
        self.scan(end);
    }

    // Tells whether the keyword `and` starts at the scan position.
    fn is_and_keywords(&self) -> (r: bool)
        requires
            self.pos <= self.input@.len(),
        ensures
            r == and_at(self.input@, self.pos as int),
    {
        self.ahead_is(0, 'a') && self.ahead_is(1, 'n') && self.ahead_is(2, 'd')
            && self.ahead_is_space(3)
    }

    // Records the keyword `and` if it starts at the scan position.
    fn tokenize_and(&mut self) -> (found: bool)
        requires
            old(self).scanning(),
        ensures
            final(self).scanning(),
            final(self).input@ == old(self).input@,
            found == and_at(old(self).input@, old(self).pos as int),
            found ==> final(self).pos == old(self).pos + 3,
            found ==> final(self).lexemes() == old(self).lexemes().push(
                Lexeme { token: Token::And, begin: old(self).pos as int, end: old(self).pos + 3 },
            ),
            !found ==> final(self).pos == old(self).pos,
            !found ==> final(self).lexemes() == old(self).lexemes(),
    {
        if self.is_and_keywords() {
            self.push_token(Token::And);
            true
        } else {
            false
        }
    }

    // Records the keyword `or` if it starts at the scan position.
    fn tokenize_or(&mut self) -> (found: bool)
        requires
            old(self).scanning(),
        ensures
            final(self).scanning(),
            final(self).input@ == old(self).input@,
            found == or_at(old(self).input@, old(self).pos as int),
            found ==> final(self).pos == old(self).pos + 2,
            found ==> final(self).lexemes() == old(self).lexemes().push(
                Lexeme { token: Token::Or, begin: old(self).pos as int, end: old(self).pos + 2 },
            ),
            !found ==> final(self).pos == old(self).pos,
            !found ==> final(self).lexemes() == old(self).lexemes(),
    {
        if self.ahead_is(0, 'o') && self.ahead_is(1, 'r') && self.ahead_is_space(2) {
            self.push_token(Token::Or);
            true
        } else {
            false
        }
    }

    // Records the keyword `not` if it starts at the scan position.
    fn tokenize_not(&mut self) -> (found: bool)
        requires
            old(self).scanning(),
        ensures
            final(self).scanning(),
            final(self).input@ == old(self).input@,
            found == not_at(old(self).input@, old(self).pos as int),
            found ==> final(self).pos == old(self).pos + 3,
            found ==> final(self).lexemes() == old(self).lexemes().push(
                Lexeme { token: Token::Not, begin: old(self).pos as int, end: old(self).pos + 3 },
            ),
            !found ==> final(self).pos == old(self).pos,
            !found ==> final(self).lexemes() == old(self).lexemes(),
    {
        if self.ahead_is(0, 'n') && self.ahead_is(1, 'o') && self.ahead_is(2, 't')
            && self.ahead_is_space(3) {
            self.push_token(Token::Not);
            true
        } else {
            false
        }
    }
}

impl<'a> Lexer<'a> {
    // Records an optional `not` and the field that follows it, and tells
    // whether there is a field. The scan position ends after what was recorded.
    fn scan_field(&mut self) -> (found: bool)
        requires
            old(self).scanning(),
        ensures
            final(self).scanning(),
            final(self).input@ == old(self).input@,
            ({
                let input = old(self).input@;
                let start = old(self).pos as int;
                let negated = not_at(input, start);
                let field = if negated {
                    run_end(input, start + 3, CharClass::WhiteSpace)
                } else {
                    start
                };
                let field_end = run_end(input, field, CharClass::Word);
                let negation = if negated {
                    seq![Lexeme { token: Token::Not, begin: start, end: start + 3 }]
                } else {
                    seq![]
                };
                &&& found == (field_end > field)
                &&& final(self).pos == field_end
                &&& final(self).lexemes() == old(self).lexemes() + (if found {
                    negation.push(Lexeme { token: Token::Field, begin: field, end: field_end })
                } else {
                    negation
                })
            }),
    {
        if self.tokenize_not() {
            self.skip_white_space();
        }
        let begin = self.pos;
        let end = self.scan_at(begin, CharClass::Word);
        let found = end > begin;
        if found {
            self.push_token_position(Token::Field, Position { begin, end });
            self.scan(end);
        }
        proof {
            let input = old(self).input@;
            let start = old(self).pos as int;
            let negation = if not_at(input, start) {
                seq![Lexeme { token: Token::Not, begin: start, end: start + 3 }]
            } else {
                seq![]
            };
            let named = negation.push(
                Lexeme { token: Token::Field, begin: begin as int, end: end as int },
            );
            assert(old(self).lexemes() + negation =~= if not_at(input, start) {
                old(self).lexemes().push(negation[0])
            } else {
                old(self).lexemes()
            });
            assert(old(self).lexemes() + named =~= (old(self).lexemes() + negation).push(
                named.last(),
            ));
        }
        found
    }

    // Records the operator at the scan position, and tells whether there is
    // one: the keyword `and` is none.
    fn scan_operator(&mut self) -> (found: bool)
        requires
            old(self).scanning(),
        ensures
            final(self).scanning(),
            final(self).input@ == old(self).input@,
            ({
                let input = old(self).input@;
                let operator = old(self).pos as int;
                let operator_end = run_end(input, operator, CharClass::Word);
                &&& found == !(and_at(input, operator) || operator_end == operator)
                &&& found ==> final(self).pos == operator_end
                &&& found ==> final(self).lexemes() == old(self).lexemes().push(
                    Lexeme { token: Token::Operator, begin: operator, end: operator_end },
                )
                &&& !found ==> final(self).pos == old(self).pos
                &&& !found ==> final(self).lexemes() == old(self).lexemes()
            }),
    {
        if self.is_and_keywords() {
            return false;
        }
        let begin = self.pos;
        let end = self.scan_at(begin, CharClass::Word);
        let found = end > begin;
        if found {
            self.push_token_position(Token::Operator, Position { begin, end });
            self.scan(end);
        }
        found
    }

    // Records the head of a condition: an optional `not`, a field, and an
    // operator where one follows.
    fn scan_condition(&mut self) -> (r: Result<()>)
        requires
            old(self).scanning(),
        ensures
            final(self).scanning(),
            final(self).input@ == old(self).input@,
            match lex_condition(old(self).input@, old(self).pos as int) {
                Ok((head, next)) => r is Ok && final(self).pos == next && final(self).lexemes()
                    == old(self).lexemes() + head,
                Err(e) => r == Err::<(), Error>(e),
            },
    {
        self.skip_white_space();
        let ghost start = self.pos as int;
        let found = self.scan_field();
        proof {
            let input = self.input@;
            let field = if not_at(input, start) {
                run_end(input, start + 3, CharClass::WhiteSpace)
            } else {
                start
            };
            lemma_run_end_bounds(input, field, CharClass::Word);
        }
        if !found {
            return Err(Error::MissingField { column: self.pos + 1 });
        }
        self.skip_white_space();
        let found = self.scan_operator();
        proof {
            if let Ok((head, next)) = lex_condition(old(self).input@, old(self).pos as int) {
                if found {
                    assert(self.lexemes() =~= old(self).lexemes() + head);
                } else {
                    assert(self.lexemes() =~= old(self).lexemes() + head);
                }
            }
        }
        Ok(())
    }

    // Records the text that runs from the scan position to the closing
    // quote, and tells whether there is one. The scan position ends on the
    // closing quote.
    fn scan_letter(&mut self) -> (found: bool)
        requires
            old(self).scanning(),
        ensures
            final(self).scanning(),
            final(self).input@ == old(self).input@,
            ({
                let input = old(self).input@;
                let begin = old(self).pos as int;
                let close = run_end(input, begin, CharClass::Letter);
                &&& found == (close > begin && char_is(input, close, '"'))
                &&& found ==> final(self).pos == close
                &&& found ==> final(self).lexemes() == old(self).lexemes().push(
                    Lexeme { token: Token::Letter, begin, end: close },
                )
                &&& !found ==> final(self).pos == old(self).pos
                &&& !found ==> final(self).lexemes() == old(self).lexemes()
            }),
    {
        let begin = self.pos;
        let end = self.scan_at(begin, CharClass::Letter);
        let found = end > begin && self.at_char(end) == Some('"');
        if found {
            self.push_token_position(Token::Letter, Position { begin, end });
            self.scan(end);
        }
        found
    }

    // Records the number at the scan position, and tells whether there is one.
    fn scan_number(&mut self) -> (found: bool)
        requires
            old(self).scanning(),
        ensures
            final(self).scanning(),
            final(self).input@ == old(self).input@,
            match lex_number(old(self).input@, old(self).pos as int) {
                Some(number) => found && final(self).pos == number.end && final(self).lexemes()
                    == old(self).lexemes().push(number),
                None => !found && final(self).pos == old(self).pos && final(self).lexemes()
                    == old(self).lexemes(),
            },
    {
        let begin = self.pos;
        let digits = if self.ahead_is(0, '-') {
            begin + 1
        } else {
            begin
        };
        let whole = self.scan_at(digits, CharClass::Digit);
        if whole > digits && self.ahead_closes_number(whole - begin) {
            self.push_token_position(Token::Integer, Position { begin, end: whole });
            self.scan(whole);
            return true;
        }
        if whole > digits && self.ahead_is(whole - begin, '.') {
            let fraction = self.scan_at(whole + 1, CharClass::Digit);
            if fraction > whole + 1 && self.ahead_closes_number(fraction - begin) {
                self.push_token_position(Token::Decimal, Position { begin, end: fraction });
                self.scan(fraction);
                return true;
            }
        }
        false
    }

    // Records the keyword at the scan position, and after `and` the head of
    // the condition that follows. Tells whether there is a keyword.
    fn scan_keywords(&mut self) -> (r: Result<bool>)
        requires
            old(self).scanning(),
        ensures
            final(self).scanning(),
            final(self).input@ == old(self).input@,
            ({
                let input = old(self).input@;
                let at = old(self).pos as int;
                if and_at(input, at) {
                    match lex_condition(input, at + 3) {
                        Ok((head, next)) => r == Ok::<bool, Error>(true) && final(self).pos == next
                            && final(self).lexemes() == old(self).lexemes() + (seq![
                                Lexeme { token: Token::And, begin: at, end: at + 3 },
                            ] + head),
                        Err(e) => r == Err::<bool, Error>(e),
                    }
                } else if or_at(input, at) {
                    r == Ok::<bool, Error>(true) && final(self).pos == at + 2
                        && final(self).lexemes() == old(self).lexemes().push(
                        Lexeme { token: Token::Or, begin: at, end: at + 2 },
                    )
                } else if not_at(input, at) {
                    r == Ok::<bool, Error>(true) && final(self).pos == at + 3
                        && final(self).lexemes() == old(self).lexemes().push(
                        Lexeme { token: Token::Not, begin: at, end: at + 3 },
                    )
                } else {
                    r == Ok::<bool, Error>(false) && final(self).pos == at
                        && final(self).lexemes() == old(self).lexemes()
                }
            }),
    {
        if self.tokenize_and() {
            self.scan_condition()?;
            proof {
                if let Ok((head, next)) = lex_condition(old(self).input@, old(self).pos + 3) {
                    assert(self.lexemes() =~= old(self).lexemes() + (seq![
                        Lexeme {
                            token: Token::And,
                            begin: old(self).pos as int,
                            end: old(self).pos + 3,
                        },
                    ] + head));
                }
            }
            Ok(true)
        } else if self.tokenize_or() {
            Ok(true)
        } else if self.tokenize_not() {
            Ok(true)
        } else {
            Ok(false)
        }
    }
}

impl<'a> Lexer<'a> {
    /// Turns the rule text into tokens, from its first character on.
    ///
    /// Whatever an earlier run has found is dropped first. The run stops at
    /// the first error, which is returned.
    pub fn tokenize(&mut self) -> (r: Result<()>)
        ensures
            final(self).text() == old(self).text(),
            match lex(old(self).text()) {
                Ok(lexemes) => r is Ok && final(self).lexemes() == lexemes
                    && final(self).finished(),
                Err(e) => r == Err::<(), Error>(e) && !final(self).finished(),
            },
    {
        proof {
            use_type_invariant(&*self);
        }
        self.found = Found::new();
        self.pos = 0;
        let ghost input = self.input@;
        assert(prepend(self.lexemes(), lex_from(input, 0)) == lex(input)) by {
            if let Ok(rest) = lex_from(input, 0) {
                assert(self.lexemes() + rest =~= rest);
            }
        }
        while self.pos < self.input.len()
            invariant
                self.scanning(),
                self.input@ == input,
                old(self).input@ == input,
                prepend(self.lexemes(), lex_from(input, self.pos as int)) == lex(input),
            decreases input.len() - self.pos,
        {
            let ghost from = self.pos as int;
            let ghost before = self.lexemes();
            self.skip_white_space();
            let ghost at = self.pos as int;
            proof {
                lemma_lex_from_skips(input, from);
                lemma_run_end_bounds(input, from, CharClass::WhiteSpace);
                lemma_run_end_holds(input, from, CharClass::WhiteSpace);
                assert(run_end(input, at, CharClass::WhiteSpace) == at);
            }
            if self.pos < self.input.len() {
                let c = self.input[self.pos];
                if c == '(' {
                    self.push_token(Token::OpenParenthesis);
                    proof {
                        lemma_condition_advances(input, at + 1);
                    }
                    self.scan_condition()?;
                    proof {
                        let step = lex_condition(input, at + 1);
                        let head = seq![mark(Token::OpenParenthesis, at)] + step->Ok_0.0;
                        assert(self.lexemes() =~= before + head);
                        lemma_prepend_twice(before, head, lex_from(input, self.pos as int));
                    }
                } else if c == ')' || c == '{' || c == '}' {
                    let token = if c == ')' {
                        Token::CloseParenthesis
                    } else if c == '{' {
                        Token::OpenBrace
                    } else {
                        Token::CloseBrace
                    };
                    self.push_token(token);
                    proof {
                        assert(self.lexemes() =~= before + seq![mark(token, at)]);
                        lemma_prepend_twice(
                            before,
                            seq![mark(token, at)],
                            lex_from(input, self.pos as int),
                        );
                    }
                } else if c == '"' {
                    self.push_token(Token::Quote);
                    proof {
                        lemma_run_end_bounds(input, at + 1, CharClass::Letter);
                    }
                    if !self.scan_letter() {
                        return Err(Error::MissingQuote { column: self.pos + 1 });
                    }
                    let ghost close = self.pos as int;
                    self.push_token(Token::Quote);
                    proof {
                        let head = seq![
                            mark(Token::Quote, at),
                            Lexeme { token: Token::Letter, begin: at + 1, end: close },
                            mark(Token::Quote, close),
                        ];
                        assert(self.lexemes() =~= before + head);
                        lemma_prepend_twice(before, head, lex_from(input, self.pos as int));
                    }
                } else {
                    proof {
                        if and_at(input, at) {
                            lemma_condition_advances(input, at + 3);
                        }
                        lemma_number_advances(input, at);
                    }
                    if !self.scan_keywords()? {
                        if !self.scan_number() {
                            return Err(Error::ParseFailed { column: self.pos + 1 });
                        }
                        proof {
                            let number = lex_number(input, at)->Some_0;
                            assert(self.lexemes() =~= before + seq![number]);
                            lemma_prepend_twice(
                                before,
                                seq![number],
                                lex_from(input, self.pos as int),
                            );
                        }
                    } else {
                        proof {
                            let head = if and_at(input, at) {
                                seq![Lexeme { token: Token::And, begin: at, end: at + 3 }]
                                    + lex_condition(input, at + 3)->Ok_0.0
                            } else if or_at(input, at) {
                                seq![Lexeme { token: Token::Or, begin: at, end: at + 2 }]
                            } else {
                                seq![Lexeme { token: Token::Not, begin: at, end: at + 3 }]
                            };
                            assert(self.lexemes() =~= before + head);
                            lemma_prepend_twice(before, head, lex_from(input, self.pos as int));
                        }
                    }
                }
            }
        }
        let end = self.pos;
        proof {
            use_type_invariant(&*self);
            let last = Lexeme { token: Token::EOF, begin: end as int, end: end as int };
            assert(self.lexemes().push(last) =~= self.lexemes() + seq![last]);
            assert(run_end(input, end as int, CharClass::WhiteSpace) == end);
            assert(lex(input) == Ok::<Seq<Lexeme>, Error>(self.lexemes().push(last)));
        }
        let mut found = Found::new();
        core::mem::swap(&mut found, &mut self.found);
        found.push(Token::EOF, Position { begin: end, end });
        self.found = found;
        Ok(())
    }
}

impl<'a> Lexer<'a> {
    /// The tokens found so far, each with the characters that it spans.
    ///
    /// Every token has a span, so this never fails.
    pub fn token_data(&self) -> (r: Result<Vec<(&Token, &[char])>>)
        ensures
            r matches Ok(mapping) && mapping@.len() == self.lexemes().len() && forall|i: int|
                0 <= i < mapping@.len() ==> *(#[trigger] mapping@[i]).0 == self.lexemes()[i].token
                    && mapping@[i].1@ == self.lexemes()[i].text(self.text()),
    {
        let mut mapping: Vec<(&Token, &[char])> = Vec::new();
        let mut i: usize = 0;
        proof {
            use_type_invariant(self);
        }
        while i < self.found.tokens.len()
            invariant
                self.inv(),
                i <= self.found.tokens@.len(),
                mapping@.len() == i,
                forall|k: int|
                    0 <= k < i ==> *(#[trigger] mapping@[k]).0 == self.lexemes()[k].token
                        && mapping@[k].1@ == self.lexemes()[k].text(self.text()),
            decreases self.found.tokens@.len() - i,
        {
            let position = self.found.positions[i];
            let data = slice_subrange(self.input, position.begin, position.end);
            mapping.push((&self.found.tokens[i], data));
            i += 1;
        }
        Ok(mapping)
    }

    /// The tokens found so far, each with a copy of the text that it spans.
    ///
    /// Every token has a span, so this never fails.
    pub fn token_data_owner(&self) -> (r: Result<Vec<(Token, String)>>)
        ensures
            r matches Ok(mapping) && mapping@.len() == self.lexemes().len() && forall|i: int|
                0 <= i < mapping@.len() ==> (#[trigger] mapping@[i]).0 == self.lexemes()[i].token
                    && mapping@[i].1@ == self.lexemes()[i].text(self.text()),
    {
        let references = self.token_data()?;
        let mut mapping: Vec<(Token, String)> = Vec::new();
        let mut i: usize = 0;
        while i < references.len()
            invariant
                i <= references@.len(),
                references@.len() == self.lexemes().len(),
                mapping@.len() == i,
                forall|k: int|
                    0 <= k < references@.len() ==> *(#[trigger] references@[k]).0
                        == self.lexemes()[k].token && references@[k].1@ == self.lexemes()[k].text(
                        self.text(),
                    ),
                forall|k: int|
                    0 <= k < i ==> (#[trigger] mapping@[k]).0 == self.lexemes()[k].token
                        && mapping@[k].1@ == self.lexemes()[k].text(self.text()),
            decreases references@.len() - i,
        {
            let (token, data) = references[i];
            mapping.push((*token, string_of(data)));
            i += 1;
        }
        Ok(mapping)
    }

    /// The characters that each token found so far spans.
    pub fn data(&self) -> (r: Vec<&'a [char]>)
        ensures
            r@.len() == self.lexemes().len(),
            forall|i: int|
                0 <= i < r@.len() ==> (#[trigger] r@[i])@ == self.lexemes()[i].text(self.text()),
    {
        let mut sequence: Vec<&'a [char]> = Vec::new();
        let mut i: usize = 0;
        proof {
            use_type_invariant(self);
        }
        while i < self.found.positions.len()
            invariant
                self.inv(),
                i <= self.found.positions@.len(),
                sequence@.len() == i,
                forall|k: int|
                    0 <= k < i ==> (#[trigger] sequence@[k])@ == self.lexemes()[k].text(
                        self.text(),
                    ),
            decreases self.found.positions@.len() - i,
        {
            let position = self.found.positions[i];
            sequence.push(slice_subrange(self.input, position.begin, position.end));
            i += 1;
        }
        sequence
    }

    /// A copy of the text that each token found so far spans.
    pub fn data_owner(&self) -> (r: Vec<String>)
        ensures
            r@.len() == self.lexemes().len(),
            forall|i: int|
                0 <= i < r@.len() ==> (#[trigger] r@[i])@ == self.lexemes()[i].text(self.text()),
    {
        let mut sequence: Vec<String> = Vec::new();
        let mut i: usize = 0;
        proof {
            use_type_invariant(self);
        }
        while i < self.found.positions.len()
            invariant
                self.inv(),
                i <= self.found.positions@.len(),
                sequence@.len() == i,
                forall|k: int|
                    0 <= k < i ==> (#[trigger] sequence@[k])@ == self.lexemes()[k].text(
                        self.text(),
                    ),
            decreases self.found.positions@.len() - i,
        {
            let position = self.found.positions[i];
            sequence.push(string_of(slice_subrange(self.input, position.begin, position.end)));
            i += 1;
        }
        sequence
    }
}

} // verus!
