//! The syntax analysis of rules: from tokens to a matcher.

use vstd::prelude::*;

use crate::error::{Error, ErrorView};
use crate::grammar::{
    column_at, extend, lemma_cont_advances, lemma_cont_list_advances, lemma_extend_twice,
    lemma_group_advances, parse_cont, parse_cont_list, parse_group, parse_group_list, parse_rule,
    parse_single_value, parse_value, parse_value_list, token_is, words, Word,
};
use crate::lexer::{Lexer, Position, Token};
use crate::lexical::lex;
use crate::matcher::{matcher_view_of, Cont, ContView, Groups, Matcher};
use crate::number::parse_decimal;
use crate::result::Result;
use crate::text::string_of;
use crate::value::{Value, ValueView, Values};

verus! {

/// The syntax analyser of one rule.
#[derive(Debug)]
pub struct Parser<'a> {
    // The tokens of the rule.
    input: &'a Vec<Token>,
    // The text of each token.
    data: Vec<&'a [char]>,
    // The span of each token.
    positions: &'a Vec<Position>,
    // The index of the current token.
    pos: usize,
}

impl<'a> Parser<'a> {
    /// The tokens of the rule as the grammar reads them.
    pub closed spec fn words(&self) -> Seq<Word> {
        Seq::new(
            self.input@.len(),
            |i: int|
                Word {
                    token: self.input@[i],
                    begin: self.positions@[i].begin,
                    text: self.data@[i]@,
                },
        )
    }

    // Every token has a span and a text.
    #[verifier::type_invariant]
    closed spec fn inv(&self) -> bool {
        &&& self.input@.len() == self.positions@.len()
        &&& self.input@.len() == self.data@.len()
    }

    // The state in the middle of an analysis.
    closed spec fn parsing(&self) -> bool {
        self.pos <= self.input@.len()
    }

    // Tells whether the token at `at` is of the kind `token`.
    fn token_is(&self, at: usize, token: Token) -> (r: bool)
        ensures
            r == token_is(self.words(), at as int, token),
    {
        at < self.input.len() && self.input[at] == token
    }

    // The span of the current token.
    fn current_position(&self) -> (r: Result<&Position>)
        ensures
            match column_at(self.words(), self.pos as int) {
                Ok(column) => r matches Ok(position) && position.begin == column,
                Err(e) => r matches Err(err) && err@ == e,
            },
    {
        proof {
            use_type_invariant(self);
        }
        if self.pos < self.positions.len() {
            Ok(&self.positions[self.pos])
        } else {
            Err(Error::MissingPosition { index: self.pos })
        }
    }

    // The text of the token at `pos`.
    fn at_data(&self, pos: usize) -> (r: &'a [char])
        requires
            pos < self.words().len(),
        ensures
            r@ == self.words()[pos as int].text,
    {
        proof {
            use_type_invariant(self);
        }
        self.data[pos]
    }

    // The text of the current token.
    fn current_data(&self) -> (r: &'a [char])
        requires
            self.pos < self.words().len(),
        ensures
            r@ == self.words()[self.pos as int].text,
    {
        self.at_data(self.pos)
    }

    // Moves to the token at `pos`.
    fn scan_at(&mut self, pos: usize)
        requires
            old(self).parsing(),
            pos <= old(self).words().len(),
        ensures
            final(self).parsing(),
            final(self).words() == old(self).words(),
            final(self).pos == pos,
    {
        proof {
            use_type_invariant(&*self);
        }
        self.pos = pos;
        assert(self.words() =~= old(self).words());
    }

    // Moves to the next token.
    fn scan(&mut self)
        requires
            old(self).parsing(),
            old(self).pos < old(self).words().len(),
        ensures
            final(self).parsing(),
            final(self).words() == old(self).words(),
            final(self).pos == old(self).pos + 1,
    {
        assert(self.words().len() == self.input.len());
        let next = self.pos + 1;
        self.scan_at(next);
    }
}

impl<'a> Parser<'a> {
    // value := '"' letter '"' | decimal | integer
    fn parse_single_value(&mut self) -> (r: Result<Value>)
        requires
            old(self).parsing(),
        ensures
            final(self).parsing(),
            final(self).words() == old(self).words(),
            match parse_single_value(old(self).words(), old(self).pos as int) {
                Ok((value, next)) => r matches Ok(made) && made@ == value && final(self).pos
                    == next,
                Err(e) => r matches Err(err) && err@ == e,
            },
    {
        let column = self.current_position()?.begin;
        assert(self.words().len() == self.input.len());
        if self.token_is(self.pos, Token::Decimal) || self.token_is(self.pos, Token::Integer) {
            match parse_decimal(self.current_data()) {
                Some(number) => {
                    self.scan();
                    Ok(Value::Decimal(number))
                },
                None => Err(Error::DecimalParseFailed { column }),
            }
        } else if self.token_is(self.pos, Token::Quote) && self.token_is(
            self.pos + 1,
            Token::Letter,
        ) && self.token_is(self.pos + 2, Token::Quote) {
            let letter = string_of(self.at_data(self.pos + 1));
            self.scan_at(self.pos + 3);
            Ok(Value::Letter(letter))
        } else {
            Err(Error::ShouldValueHere { column })
        }
    }

    // values := '{' value value* '}' | value
    fn parse_value(&mut self) -> (r: Result<Values>)
        requires
            old(self).parsing(),
        ensures
            final(self).parsing(),
            final(self).words() == old(self).words(),
            match parse_value(old(self).words(), old(self).pos as int) {
                Ok((value, next)) => r matches Ok(made) && made.deep_view() == value
                    && final(self).pos == next,
                Err(e) => r matches Err(err) && err@ == e,
            },
    {
        let ghost rule = self.words();
        let mut value: Vec<Value> = Vec::new();
        if !self.token_is(self.pos, Token::OpenBrace) {
            let single = self.parse_single_value()?;
            value.push(single);
            assert(value.deep_view() =~= seq![single@]);
            return Ok(value);
        }
        self.scan();
        let ghost start = self.pos as int;
        assert(value.deep_view() =~= Seq::<ValueView>::empty());
        assert(extend(value.deep_view(), parse_value_list(rule, start)) == parse_value_list(
            rule,
            start,
        )) by {
            lemma_extend_twice(
                Seq::<ValueView>::empty(),
                Seq::<ValueView>::empty(),
                parse_value_list(rule, start),
            );
            if let Ok((rest, end)) = parse_value_list(rule, start) {
                assert(Seq::<ValueView>::empty() + rest =~= rest);
            }
        }
        loop
            invariant_except_break
                extend(value.deep_view(), parse_value_list(rule, self.pos as int))
                    == parse_value_list(rule, start),
            invariant
                self.parsing(),
                self.words() == rule,
                old(self).words() == rule,
                start == old(self).pos + 1,
                token_is(rule, old(self).pos as int, Token::OpenBrace),
            ensures
                self.parsing(),
                self.words() == rule,
                parse_value_list(rule, start) == Ok::<(Seq<ValueView>, int), ErrorView>(
                    (value.deep_view(), self.pos as int),
                ),
            decreases rule.len() - self.pos,
        {
            let ghost at = self.pos as int;
            let ghost before = value.deep_view();
            let single = self.parse_single_value()?;
            value.push(single);
            proof {
                assert(value.deep_view() =~= before + seq![single@]);
                lemma_extend_twice(before, seq![single@], parse_value_list(rule, self.pos as int));
            }
            if self.token_is(self.pos, Token::CloseBrace) {
                self.scan();
                break ;
            }
        }
        Ok(value)
    }
}

impl<'a> Parser<'a> {
    // cond := ['not'] field operator values | ['not'] field
    fn parse_cont(&mut self) -> (r: Result<Cont>)
        requires
            old(self).parsing(),
        ensures
            final(self).parsing(),
            final(self).words() == old(self).words(),
            match parse_cont(old(self).words(), old(self).pos as int) {
                Ok((cont, next)) => r matches Ok(made) && made@ == cont && final(self).pos
                    == next,
                Err(e) => r matches Err(err) && err@ == e,
            },
    {
        assert(self.words().len() == self.input.len());
        let is_negative = self.token_is(self.pos, Token::Not);
        if is_negative {
            self.scan();
        }
        if !self.token_is(self.pos, Token::Field) {
            let column = self.current_position()?.begin;
            return Err(Error::MissingField { column });
        }
        let field = string_of(self.current_data());
        self.scan();
        if self.token_is(self.pos, Token::Operator) {
            let operator = string_of(self.current_data());
            self.scan();
            let value = self.parse_value()?;
            Cont::new(is_negative, field, operator, value)
        } else {
            match Cont::single_field(is_negative, field) {
                Err(Error::FieldRequireOperator { .. }) => {
                    let column = self.current_position()?.begin;
                    Err(Error::MissingOperator { column })
                },
                other => other,
            }
        }
    }

    // ('and' cond)*, after the conditions in `conts`
    fn parse_optional_cont_list(&mut self, conts: Vec<Cont>) -> (r: Result<Vec<Cont>>)
        requires
            old(self).parsing(),
        ensures
            final(self).parsing(),
            final(self).words() == old(self).words(),
            if token_is(old(self).words(), old(self).pos as int, Token::And) {
                match parse_cont_list(old(self).words(), old(self).pos + 1) {
                    Ok((rest, next)) => r matches Ok(made) && made.deep_view()
                        == conts.deep_view() + rest && final(self).pos == next,
                    Err(e) => r matches Err(err) && err@ == e,
                }
            } else {
                r matches Ok(made) && made.deep_view() == conts.deep_view() && final(self).pos
                    == old(self).pos
            },
    {
        let ghost rule = self.words();
        let ghost first = conts.deep_view();
        let ghost start = self.pos + 1;
        let mut conts = conts;
        if !self.token_is(self.pos, Token::And) {
            return Ok(conts);
        }
        assert(rule.len() == self.input.len());
        self.scan();
        loop
            invariant_except_break
                extend(conts.deep_view(), parse_cont_list(rule, self.pos as int)) == extend(
                    first,
                    parse_cont_list(rule, start),
                ),
            invariant
                self.parsing(),
                self.words() == rule,
                old(self).words() == rule,
                start == old(self).pos + 1,
                token_is(rule, old(self).pos as int, Token::And),
            ensures
                self.parsing(),
                self.words() == rule,
                extend(first, parse_cont_list(rule, start)) == Ok::<
                    (Seq<ContView>, int),
                    ErrorView,
                >((conts.deep_view(), self.pos as int)),
            decreases rule.len() - self.pos,
        {
            let ghost before = conts.deep_view();
            proof {
                lemma_cont_advances(rule, self.pos as int);
            }
            let cont = self.parse_cont()?;
            conts.push(cont);
            proof {
                assert(conts.deep_view() =~= before + seq![cont@]);
                lemma_extend_twice(before, seq![cont@], parse_cont_list(rule, self.pos + 1));
            }
            if !self.token_is(self.pos, Token::And) {
                break ;
            }
            self.scan();
        }
        Ok(conts)
    }

    // group := '(' cond ('and' cond)* ')'
    fn parse_group(&mut self) -> (r: Result<Vec<Cont>>)
        requires
            old(self).parsing(),
        ensures
            final(self).parsing(),
            final(self).words() == old(self).words(),
            match parse_group(old(self).words(), old(self).pos as int) {
                Ok((conts, next)) => r matches Ok(made) && made.deep_view() == conts
                    && final(self).pos == next,
                Err(e) => r matches Err(err) && err@ == e,
            },
    {
        let ghost rule = self.words();
        if !self.token_is(self.pos, Token::OpenParenthesis) {
            let column = self.current_position()?.begin;
            return Err(Error::ShouldOpenParenthesisHere { column });
        }
        assert(rule.len() == self.input.len());
        self.scan();
        let mut conts: Vec<Cont> = Vec::new();
        let ghost start = self.pos as int;
        let cont = self.parse_cont()?;
        conts.push(cont);
        assert(conts.deep_view() =~= seq![cont@]);
        let conts = self.parse_optional_cont_list(conts)?;
        if !self.token_is(self.pos, Token::CloseParenthesis) {
            let column = self.current_position()?.begin;
            return Err(Error::ShouldCloseParenthesisHere { column });
        }
        proof {
            lemma_cont_advances(rule, start);
            lemma_cont_list_advances(rule, start);
        }
        self.scan();
        Ok(conts)
    }

    // ('or' group)*, after the groups in `groups`
    fn parse_optional_group_list(&mut self, groups: Groups) -> (r: Result<Groups>)
        requires
            old(self).parsing(),
        ensures
            final(self).parsing(),
            final(self).words() == old(self).words(),
            if token_is(old(self).words(), old(self).pos as int, Token::Or) {
                match parse_group_list(old(self).words(), old(self).pos + 1) {
                    Ok((rest, next)) => r matches Ok(made) && made.deep_view()
                        == groups.deep_view() + rest && final(self).pos == next,
                    Err(e) => r matches Err(err) && err@ == e,
                }
            } else {
                r matches Ok(made) && made.deep_view() == groups.deep_view() && final(self).pos
                    == old(self).pos
            },
    {
        let ghost rule = self.words();
        let ghost first = groups.deep_view();
        let ghost start = self.pos + 1;
        let mut groups = groups;
        if !self.token_is(self.pos, Token::Or) {
            return Ok(groups);
        }
        assert(rule.len() == self.input.len());
        self.scan();
        loop
            invariant_except_break
                extend(groups.deep_view(), parse_group_list(rule, self.pos as int)) == extend(
                    first,
                    parse_group_list(rule, start),
                ),
            invariant
                self.parsing(),
                self.words() == rule,
                old(self).words() == rule,
                start == old(self).pos + 1,
                token_is(rule, old(self).pos as int, Token::Or),
            ensures
                self.parsing(),
                self.words() == rule,
                extend(first, parse_group_list(rule, start)) == Ok::<
                    (Seq<Seq<ContView>>, int),
                    ErrorView,
                >((groups.deep_view(), self.pos as int)),
            decreases rule.len() - self.pos,
        {
            let ghost before = groups.deep_view();
            proof {
                lemma_group_advances(rule, self.pos as int);
            }
            let group = self.parse_group()?;
            let ghost made = group.deep_view();
            groups.push(group);
            proof {
                assert(groups.deep_view() =~= before + seq![made]);
                lemma_extend_twice(before, seq![made], parse_group_list(rule, self.pos + 1));
            }
            if !self.token_is(self.pos, Token::Or) {
                break ;
            }
            self.scan();
        }
        Ok(groups)
    }

    /// Analyses the rule and makes its matcher.
    pub fn parse(self) -> (r: Result<Matcher>)
        ensures
            matcher_view_of(r) == parse_rule(self.words()),
    {
        let mut parser = self;
        let ghost rule = parser.words();
        proof {
            use_type_invariant(&parser);
        }
        parser.pos = 0;
        assert(parser.words() =~= rule);
        let mut groups: Groups = Vec::new();
        let group = parser.parse_group()?;
        let ghost made = group.deep_view();
        groups.push(group);
        assert(groups.deep_view() =~= seq![made]);
        let groups = parser.parse_optional_group_list(groups)?;
        if !parser.token_is(parser.pos, Token::EOF) {
            let column = parser.current_position()?.begin;
            return Err(Error::ShouldEndHere { column });
        }
        Ok(Matcher::new(groups))
    }
}

impl<'a> Parser<'a> {
    /// Makes the analyser of the rule that `lexer` holds.
    ///
    /// The rule text is turned into tokens first, unless `lexer` has done so.
    pub fn new(lexer: &'a mut Lexer<'a>) -> (r: Result<Self>)
        ensures
            match lex(old(lexer).text()) {
                Ok(lexemes) => r matches Ok(parser) && parser.words() == words(
                    lexemes,
                    old(lexer).text(),
                ),
                Err(e) => r matches Err(err) && err == e,
            },
    {
        if !lexer.is_end() {
            lexer.tokenize()?;
        }
        let input = lexer.output();
        let data = lexer.data();
        let positions = lexer.positions();
        let parser = Parser { input, data, positions, pos: 0 };
        proof {
            assert(parser.words() =~= words(lexer.lexemes(), lexer.text()));
        }
        Ok(parser)
    }
}

} // verus!
