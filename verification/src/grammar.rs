//! The grammar of rules, as a function from tokens to groups of conditions.
//!
//! ```text
//! rule   := group ('or' group)* end
//! group  := '(' cond ('and' cond)* ')'
//! cond   := ['not'] field operator values | ['not'] field
//! values := '{' value value* '}' | value
//! value  := '"' letter '"' | decimal | integer
//! ```

use vstd::prelude::*;

use crate::error::ErrorView;
use crate::lexer::Token;
use crate::lexical::{lemma_lex_complete, lex, Lexeme};
use crate::matcher::{
    new_cont, single_field_cont, well_formed_group, well_formed_groups, ContView, ValueView,
};
use crate::number::decimal_of;

verus! {

/// A token as the grammar reads it: its kind, where it begins, and its text.
pub struct Word {
    pub token: Token,
    pub begin: usize,
    pub text: Seq<char>,
}

/// The tokens of a rule text as the grammar reads them.
pub open spec fn words(lexemes: Seq<Lexeme>, input: Seq<char>) -> Seq<Word> {
    Seq::new(
        lexemes.len(),
        |i: int|
            Word {
                token: lexemes[i].token,
                begin: lexemes[i].begin as usize,
                text: lexemes[i].text(input),
            },
    )
}

/// What a production gives: what it made, and the index of the next token.
pub type Parsed<T> = Result<(T, int), ErrorView>;

/// Puts `head` before what a production made.
pub open spec fn extend<T>(head: Seq<T>, tail: Parsed<Seq<T>>) -> Parsed<Seq<T>> {
    match tail {
        Ok((rest, end)) => Ok((head + rest, end)),
        Err(e) => Err(e),
    }
}

/// Items put before what a production made can be put there in two steps.
pub proof fn lemma_extend_twice<T>(first: Seq<T>, second: Seq<T>, tail: Parsed<Seq<T>>)
    ensures
        extend(first, extend(second, tail)) == extend(first + second, tail),
{
    if let Ok((rest, end)) = tail {
        assert(first + (second + rest) =~= (first + second) + rest);
    }
}

/// Whether the token at `at` is of the kind `token`.
pub open spec fn token_is(rule: Seq<Word>, at: int, token: Token) -> bool {
    0 <= at < rule.len() && rule[at].token == token
}

/// The column where the token at `at` begins, or the error of a rule that
/// has no such token.
pub open spec fn column_at(rule: Seq<Word>, at: int) -> Result<usize, ErrorView> {
    if 0 <= at < rule.len() {
        Ok(rule[at].begin)
    } else {
        Err(ErrorView::MissingPosition { index: at as usize })
    }
}

/// value := '"' letter '"' | decimal | integer
pub open spec fn parse_single_value(rule: Seq<Word>, at: int) -> Parsed<ValueView> {
    match column_at(rule, at) {
        Err(e) => Err(e),
        Ok(column) => if token_is(rule, at, Token::Decimal) || token_is(
            rule,
            at,
            Token::Integer,
        ) {
            match decimal_of(rule[at].text) {
                Some(number) => Ok((ValueView::Decimal(number), at + 1)),
                None => Err(ErrorView::DecimalParseFailed { column }),
            }
        } else if token_is(rule, at, Token::Quote) && token_is(rule, at + 1, Token::Letter)
            && token_is(rule, at + 2, Token::Quote) {
            Ok((ValueView::Letter(rule[at + 1].text), at + 3))
        } else {
            Err(ErrorView::ShouldValueHere { column })
        },
    }
}

/// value value* '}'
pub open spec fn parse_value_list(rule: Seq<Word>, at: int) -> Parsed<Seq<ValueView>>
    decreases rule.len() - at,
{
    match parse_single_value(rule, at) {
        Err(e) => Err(e),
        Ok((value, next)) => if token_is(rule, next, Token::CloseBrace) {
            Ok((seq![value], next + 1))
        } else {
            extend(seq![value], parse_value_list(rule, next))
        },
    }
}

/// values := '{' value value* '}' | value
pub open spec fn parse_value(rule: Seq<Word>, at: int) -> Parsed<Seq<ValueView>> {
    if token_is(rule, at, Token::OpenBrace) {
        parse_value_list(rule, at + 1)
    } else {
        match parse_single_value(rule, at) {
            Err(e) => Err(e),
            Ok((value, next)) => Ok((seq![value], next)),
        }
    }
}

/// cond := ['not'] field operator values | ['not'] field
///
/// A field that takes operators must be followed by one.
pub open spec fn parse_cont(rule: Seq<Word>, at: int) -> Parsed<ContView> {
    let is_negative = token_is(rule, at, Token::Not);
    let field = if is_negative {
        at + 1
    } else {
        at
    };
    if !token_is(rule, field, Token::Field) {
        match column_at(rule, field) {
            Err(e) => Err(e),
            Ok(column) => Err(ErrorView::MissingField { column }),
        }
    } else if token_is(rule, field + 1, Token::Operator) {
        match parse_value(rule, field + 2) {
            Err(e) => Err(e),
            Ok((value, next)) => match new_cont(
                is_negative,
                rule[field].text,
                rule[field + 1].text,
                value,
            ) {
                Err(e) => Err(e),
                Ok(cont) => Ok((cont, next)),
            },
        }
    } else {
        match single_field_cont(is_negative, rule[field].text) {
            Err(ErrorView::FieldRequireOperator { .. }) => match column_at(rule, field + 1) {
                Err(e) => Err(e),
                Ok(column) => Err(ErrorView::MissingOperator { column }),
            },
            Err(e) => Err(e),
            Ok(cont) => Ok((cont, field + 1)),
        }
    }
}

/// cond ('and' cond)*
pub open spec fn parse_cont_list(rule: Seq<Word>, at: int) -> Parsed<Seq<ContView>>
    decreases rule.len() - at,
{
    match parse_cont(rule, at) {
        Err(e) => Err(e),
        Ok((cont, next)) => if token_is(rule, next, Token::And) {
            proof {
                lemma_cont_advances(rule, at);
            }
            extend(seq![cont], parse_cont_list(rule, next + 1))
        } else {
            Ok((seq![cont], next))
        },
    }
}

/// group := '(' cond ('and' cond)* ')'
pub open spec fn parse_group(rule: Seq<Word>, at: int) -> Parsed<Seq<ContView>> {
    if !token_is(rule, at, Token::OpenParenthesis) {
        match column_at(rule, at) {
            Err(e) => Err(e),
            Ok(column) => Err(ErrorView::ShouldOpenParenthesisHere { column }),
        }
    } else {
        match parse_cont_list(rule, at + 1) {
            Err(e) => Err(e),
            Ok((conts, next)) => if token_is(rule, next, Token::CloseParenthesis) {
                Ok((conts, next + 1))
            } else {
                match column_at(rule, next) {
                    Err(e) => Err(e),
                    Ok(column) => Err(ErrorView::ShouldCloseParenthesisHere { column }),
                }
            },
        }
    }
}

/// group ('or' group)*
pub open spec fn parse_group_list(rule: Seq<Word>, at: int) -> Parsed<Seq<Seq<ContView>>>
    decreases rule.len() - at,
{
    match parse_group(rule, at) {
        Err(e) => Err(e),
        Ok((group, next)) => if token_is(rule, next, Token::Or) {
            proof {
                lemma_group_advances(rule, at);
            }
            extend(seq![group], parse_group_list(rule, next + 1))
        } else {
            Ok((seq![group], next))
        },
    }
}

/// rule := group ('or' group)* end
pub open spec fn parse_rule(rule: Seq<Word>) -> Result<Seq<Seq<ContView>>, ErrorView> {
    match parse_group_list(rule, 0) {
        Err(e) => Err(e),
        Ok((groups, next)) => if token_is(rule, next, Token::EOF) {
            Ok(groups)
        } else {
            match column_at(rule, next) {
                Err(e) => Err(e),
                Ok(column) => Err(ErrorView::ShouldEndHere { column }),
            }
        },
    }
}

/// The groups that a rule text compiles to, or the first error.
pub open spec fn compile(text: Seq<char>) -> Result<Seq<Seq<ContView>>, ErrorView> {
    match lex(text) {
        Err(e) => Err(e@),
        Ok(lexemes) => parse_rule(words(lexemes, text)),
    }
}

/// A value list ends after its start, and inside the rule.
pub proof fn lemma_value_list_advances(rule: Seq<Word>, at: int)
    ensures
        parse_value_list(rule, at) matches Ok((values, next)) ==> 0 <= at < next <= rule.len()
            && values.len() > 0,
    decreases rule.len() - at,
{
    if let Ok((value, next)) = parse_single_value(rule, at) {
        if !token_is(rule, next, Token::CloseBrace) {
            lemma_value_list_advances(rule, next);
        }
    }
}

/// A condition ends after its start, and inside the rule.
pub proof fn lemma_cont_advances(rule: Seq<Word>, at: int)
    ensures
        parse_cont(rule, at) matches Ok((_, next)) ==> 0 <= at < next <= rule.len(),
{
    let field = if token_is(rule, at, Token::Not) {
        at + 1
    } else {
        at
    };
    lemma_value_list_advances(rule, field + 3);
}

/// A condition list ends after its start, and inside the rule.
pub proof fn lemma_cont_list_advances(rule: Seq<Word>, at: int)
    ensures
        parse_cont_list(rule, at) matches Ok((conts, next)) ==> 0 <= at < next <= rule.len()
            && conts.len() > 0,
    decreases rule.len() - at,
{
    lemma_cont_advances(rule, at);
    if let Ok((cont, next)) = parse_cont(rule, at) {
        if token_is(rule, next, Token::And) {
            lemma_cont_list_advances(rule, next + 1);
        }
    }
}

/// A group ends after its start, and inside the rule.
pub proof fn lemma_group_advances(rule: Seq<Word>, at: int)
    ensures
        parse_group(rule, at) matches Ok((conts, next)) ==> 0 <= at < next <= rule.len()
            && conts.len() > 0,
{
    lemma_cont_list_advances(rule, at + 1);
}

/// Whether the rule ends with the end token and holds no other, as the
/// tokens of a rule text do.
pub open spec fn ends_once(rule: Seq<Word>) -> bool {
    &&& rule.len() > 0
    &&& forall|i: int| 0 <= i < rule.len() ==> ((#[trigger] rule[i]).token == Token::EOF <==> i
        == rule.len() - 1)
}

/// Whether a production stayed inside the rule: it made something and
/// stopped before the end of the rule, or failed for a reason other than a
/// token that is not there or that lacks its span or its text.
pub open spec fn stays_inside<T>(rule: Seq<Word>, at: int, parsed: Parsed<T>) -> bool {
    match parsed {
        Ok((_, next)) => at < next < rule.len(),
        Err(e) => !e.is_bookkeeping(),
    }
}

/// In a rule that ends, a value stays inside the rule.
pub proof fn lemma_single_value_inside(rule: Seq<Word>, at: int)
    requires
        ends_once(rule),
        0 <= at < rule.len(),
    ensures
        stays_inside(rule, at, parse_single_value(rule, at)),
{
    if token_is(rule, at, Token::Quote) && token_is(rule, at + 1, Token::Letter) && token_is(
        rule,
        at + 2,
        Token::Quote,
    ) {
        assert(rule[at + 2].token != Token::EOF);
    }
    assert(rule[at].token == Token::EOF <==> at == rule.len() - 1);
}

/// In a rule that ends, a value list stays inside the rule, and holds a value.
pub proof fn lemma_value_list_inside(rule: Seq<Word>, at: int)
    requires
        ends_once(rule),
        0 <= at < rule.len(),
    ensures
        stays_inside(rule, at, parse_value_list(rule, at)),
        parse_value_list(rule, at) matches Ok((values, _)) ==> values.len() > 0,
    decreases rule.len() - at,
{
    lemma_single_value_inside(rule, at);
    if let Ok((value, next)) = parse_single_value(rule, at) {
        if token_is(rule, next, Token::CloseBrace) {
            assert(rule[next].token != Token::EOF);
        } else {
            lemma_value_list_inside(rule, next);
        }
    }
}

/// In a rule that ends, the values of a condition stay inside the rule, and
/// there is at least one.
pub proof fn lemma_value_inside(rule: Seq<Word>, at: int)
    requires
        ends_once(rule),
        0 <= at < rule.len(),
    ensures
        stays_inside(rule, at, parse_value(rule, at)),
        parse_value(rule, at) matches Ok((values, _)) ==> values.len() > 0,
{
    if token_is(rule, at, Token::OpenBrace) {
        assert(rule[at].token != Token::EOF);
        lemma_value_list_inside(rule, at + 1);
    } else {
        lemma_single_value_inside(rule, at);
    }
}

/// In a rule that ends, a condition stays inside the rule, and is well formed.
pub proof fn lemma_cont_inside(rule: Seq<Word>, at: int)
    requires
        ends_once(rule),
        0 <= at < rule.len(),
    ensures
        stays_inside(rule, at, parse_cont(rule, at)),
        parse_cont(rule, at) matches Ok((cont, _)) ==> cont.well_formed(),
{
    let field = if token_is(rule, at, Token::Not) {
        at + 1
    } else {
        at
    };
    assert(rule[at].token == Token::EOF <==> at == rule.len() - 1);
    if token_is(rule, field, Token::Field) {
        assert(rule[field].token != Token::EOF);
        if token_is(rule, field + 1, Token::Operator) {
            assert(rule[field + 1].token != Token::EOF);
            lemma_value_inside(rule, field + 2);
        }
    }
}

/// In a rule that ends, a condition list stays inside the rule, and is a
/// well-formed group.
pub proof fn lemma_cont_list_inside(rule: Seq<Word>, at: int)
    requires
        ends_once(rule),
        0 <= at < rule.len(),
    ensures
        stays_inside(rule, at, parse_cont_list(rule, at)),
        parse_cont_list(rule, at) matches Ok((conts, _)) ==> well_formed_group(conts),
    decreases rule.len() - at,
{
    lemma_cont_inside(rule, at);
    if let Ok((cont, next)) = parse_cont(rule, at) {
        if token_is(rule, next, Token::And) {
            assert(rule[next].token != Token::EOF);
            lemma_cont_list_inside(rule, next + 1);
            if let Ok((conts, end)) = parse_cont_list(rule, next + 1) {
                let all = seq![cont] + conts;
                assert forall|i: int| 0 <= i < all.len() implies (
                #[trigger] all[i]).well_formed() by {
                    if i > 0 {
                        assert(all[i] == conts[i - 1]);
                    }
                }
            }
        }
    }
}

/// In a rule that ends, a group stays inside the rule, and is well formed.
pub proof fn lemma_group_inside(rule: Seq<Word>, at: int)
    requires
        ends_once(rule),
        0 <= at < rule.len(),
    ensures
        stays_inside(rule, at, parse_group(rule, at)),
        parse_group(rule, at) matches Ok((conts, _)) ==> well_formed_group(conts),
{
    if token_is(rule, at, Token::OpenParenthesis) {
        assert(rule[at].token != Token::EOF);
        lemma_cont_list_inside(rule, at + 1);
        if let Ok((conts, next)) = parse_cont_list(rule, at + 1) {
            if token_is(rule, next, Token::CloseParenthesis) {
                assert(rule[next].token != Token::EOF);
            }
        }
    }
}

/// In a rule that ends, a group list stays inside the rule, and its groups
/// are well formed.
pub proof fn lemma_group_list_inside(rule: Seq<Word>, at: int)
    requires
        ends_once(rule),
        0 <= at < rule.len(),
    ensures
        stays_inside(rule, at, parse_group_list(rule, at)),
        parse_group_list(rule, at) matches Ok((groups, _)) ==> well_formed_groups(groups),
    decreases rule.len() - at,
{
    lemma_group_inside(rule, at);
    if let Ok((group, next)) = parse_group(rule, at) {
        if token_is(rule, next, Token::Or) {
            assert(rule[next].token != Token::EOF);
            lemma_group_list_inside(rule, next + 1);
            if let Ok((groups, end)) = parse_group_list(rule, next + 1) {
                let all = seq![group] + groups;
                assert forall|i: int| 0 <= i < all.len() implies well_formed_group(
                    #[trigger] all[i],
                ) by {
                    if i > 0 {
                        assert(all[i] == groups[i - 1]);
                    }
                }
            }
        } else {
            assert(seq![group][0] == group);
        }
    }
}

/// A rule that ends compiles to well-formed groups, or fails for a reason
/// other than a token that is not there or that lacks its span or its text.
///
/// So the groups of a compiled rule are not empty, no group is empty, and
/// each condition holds an operator exactly if it holds values: an operator
/// that its field takes, and at least one value.
pub proof fn lemma_rule_well_formed(rule: Seq<Word>)
    requires
        ends_once(rule),
    ensures
        match parse_rule(rule) {
            Ok(groups) => well_formed_groups(groups),
            Err(e) => !e.is_bookkeeping(),
        },
{
    lemma_group_list_inside(rule, 0);
}

/// A rule text compiles to well-formed groups, or fails with an error of
/// the rule text, never with one of bookkeeping.
///
/// So the groups of a compiled rule are not empty, no group is empty, and
/// each condition holds an operator exactly if it holds values: an operator
/// that its field takes, and at least one value.
pub proof fn lemma_compile_well_formed(text: Seq<char>)
    ensures
        match compile(text) {
            Ok(groups) => well_formed_groups(groups),
            Err(e) => !e.is_bookkeeping(),
        },
{
    lemma_lex_complete(text);
    if let Ok(lexemes) = lex(text) {
        let rule = words(lexemes, text);
        assert(ends_once(rule)) by {
            assert forall|i: int| 0 <= i < rule.len() implies ((#[trigger] rule[i]).token
                == Token::EOF <==> i == rule.len() - 1) by {
                assert(rule[i].token == lexemes[i].token);
            }
        }
        lemma_rule_well_formed(rule);
    }
}

} // verus!
