//! Compiles firewall-style rule expressions into matchers and evaluates them
//! against message records.
//!
//! A rule is a list of parenthesised groups joined by `or`. Each group is a
//! list of conditions joined by `and`. A condition is a field, optionally
//! followed by an operator and a value, and optionally preceded by `not`:
//!
//! ```text
//! (message.text any {"Hello" "Bye"} and not message.from.is_bot) or (message.text.len gt 120)
//! ```
//!
//! # Layout
//!
//! What a rule text means is defined by mathematical functions, and the
//! code is proved to compute them:
//!
//! - [`lexical`] defines the tokens of a rule text, and [`lexer`] finds them;
//! - [`grammar`] defines the groups that tokens make, and [`parser`] makes them;
//! - [`semantics`] defines when groups match a message, and [`matcher`] tells.
//!
//! [`registry`] lists the operators that each field takes, and the modules
//! under [`ope`] hold the operators. [`laws`] states what follows: negation,
//! conjunction and disjunction behave as they should, and a rule that
//! compiles never fails to match.
//!
//! What is assumed of the standard library, and not proved, stands in [`text`].

use vstd::prelude::*;

pub mod error;
pub mod falsey;
pub mod field;
pub mod grammar;
pub mod laws;
pub mod lexer;
pub mod lexical;
pub mod matcher;
pub mod models;
pub mod number;
pub mod ope;
pub mod parser;
pub mod registry;
pub mod result;
pub mod semantics;
pub mod text;
pub mod truthy;
pub mod value;

pub use crate::error::Error;
use crate::error::{view_of, Answer};
use crate::grammar::compile;
use crate::matcher::matcher_view_of;
pub use crate::matcher::Matcher;
use crate::models::Message;
use crate::result::Result;
use crate::semantics::groups_match;

verus! {

/// What matching a message against a rule text gives: the first error of
/// compiling the rule, or what its groups give of the message.
pub open spec fn rule_matches(rule: Seq<char>, message: &Message) -> Answer {
    match compile(rule) {
        Ok(groups) => groups_match(groups, message),
        Err(e) => Err(e),
    }
}

/// Compiles a rule text and tells whether it matches the message.
pub fn rule_match(rule: &str, message: &Message) -> (r: Result<bool>)
    requires
        rule@.len() < usize::MAX,
    ensures
        view_of(r) == rule_matches(rule@, message),
{
    let mut matcher = compile_rule(rule)?;
    matcher_match(&mut matcher, message)
}

/// Tells whether a compiled rule matches the message.
pub fn matcher_match(matcher: &mut Matcher, message: &Message) -> (r: Result<bool>)
    ensures
        final(matcher)@ == old(matcher)@,
        view_of(r) == groups_match(old(matcher)@, message),
{
    matcher.match_message(message)
}

/// Compiles a rule text into its matcher.
pub fn compile_rule(rule: &str) -> (r: Result<Matcher>)
    requires
        rule@.len() < usize::MAX,
    ensures
        matcher_view_of(r) == compile(rule@),
{
    Matcher::from_rule(rule)
}

} // verus!
