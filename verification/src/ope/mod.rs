//! The comparison operators of the rule language.

use vstd::prelude::*;

use crate::text::str_eq;

pub mod all;
pub mod any;
pub mod eq;
pub mod ge;
pub mod gt;
pub mod hd;
pub mod in_;
pub mod le;
pub mod prelude;
pub mod td;

verus! {

/// An operator of a condition.
#[derive(Debug, PartialEq, Eq, Structural, Copy, Clone)]
pub enum Operator {
    /// Equal to the value.
    Eq,
    /// Greater than the value.
    Gt,
    /// Less than the value.
    Lt,
    /// Greater than or equal to the value.
    Ge,
    /// Less than or equal to the value.
    Le,
    /// Equal to one of the values.
    In,
    /// Contains at least one of the values.
    Any,
    /// Contains every value.
    All,
    /// Starts with the value.
    Hd,
    /// Ends with the value.
    Td,
}

impl Operator {
    /// The name of the operator in rule text.
    pub open spec fn name(self) -> Seq<char> {
        match self {
            Operator::Eq => "eq"@,
            Operator::Gt => "gt"@,
            Operator::Lt => "lt"@,
            Operator::Ge => "ge"@,
            Operator::Le => "le"@,
            Operator::In => "in"@,
            Operator::Any => "any"@,
            Operator::All => "all"@,
            Operator::Hd => "hd"@,
            Operator::Td => "td"@,
        }
    }

    /// The operator that rule text calls `name`, if there is one.
    pub open spec fn named(name: Seq<char>) -> Option<Operator> {
        if name == Operator::Eq.name() {
            Some(Operator::Eq)
        } else if name == Operator::Gt.name() {
            Some(Operator::Gt)
        } else if name == Operator::Lt.name() {
            Some(Operator::Lt)
        } else if name == Operator::Ge.name() {
            Some(Operator::Ge)
        } else if name == Operator::Le.name() {
            Some(Operator::Le)
        } else if name == Operator::In.name() {
            Some(Operator::In)
        } else if name == Operator::Any.name() {
            Some(Operator::Any)
        } else if name == Operator::All.name() {
            Some(Operator::All)
        } else if name == Operator::Hd.name() {
            Some(Operator::Hd)
        } else if name == Operator::Td.name() {
            Some(Operator::Td)
        } else {
            None
        }
    }

    /// Finds the operator that rule text calls `name`.
    pub fn from_str(name: &str) -> (r: Option<Operator>)
        ensures
            r == Operator::named(name@),
    {
        if str_eq(name, "eq") {
            Some(Operator::Eq)
        } else if str_eq(name, "gt") {
            Some(Operator::Gt)
        } else if str_eq(name, "lt") {
            Some(Operator::Lt)
        } else if str_eq(name, "ge") {
            Some(Operator::Ge)
        } else if str_eq(name, "le") {
            Some(Operator::Le)
        } else if str_eq(name, "in") {
            Some(Operator::In)
        } else if str_eq(name, "any") {
            Some(Operator::Any)
        } else if str_eq(name, "all") {
            Some(Operator::All)
        } else if str_eq(name, "hd") {
            Some(Operator::Hd)
        } else if str_eq(name, "td") {
            Some(Operator::Td)
        } else {
            None
        }
    }

    /// The name of the operator in rule text.
    pub fn as_str(&self) -> (r: &'static str)
        ensures
            r@ == self.name(),
    {
        match self {
            Operator::Eq => "eq",
            Operator::Gt => "gt",
            Operator::Lt => "lt",
            Operator::Ge => "ge",
            Operator::Le => "le",
            Operator::In => "in",
            Operator::Any => "any",
            Operator::All => "all",
            Operator::Hd => "hd",
            Operator::Td => "td",
        }
    }

    /// The name of the operator in rule text, as an owned string.
    pub fn to_string(&self) -> (r: String)
        ensures
            r@ == self.name(),
    {
        self.as_str().to_owned()
    }
}

/// An operator is the one that its name names: no two operators share a name.
pub proof fn lemma_operator_named(operator: Operator)
    ensures
        Operator::named(operator.name()) == Some(operator),
{
    reveal_strlit("eq");
    reveal_strlit("gt");
    reveal_strlit("lt");
    reveal_strlit("ge");
    reveal_strlit("le");
    reveal_strlit("in");
    reveal_strlit("any");
    reveal_strlit("all");
    reveal_strlit("hd");
    reveal_strlit("td");
    // The first two characters tell the names of one length apart.
    assert("eq"@[0] == 'e' && "eq"@[1] == 'q');
    assert("gt"@[0] == 'g' && "gt"@[1] == 't');
    assert("lt"@[0] == 'l' && "lt"@[1] == 't');
    assert("ge"@[0] == 'g' && "ge"@[1] == 'e');
    assert("le"@[0] == 'l' && "le"@[1] == 'e');
    assert("in"@[0] == 'i' && "in"@[1] == 'n');
    assert("any"@[0] == 'a' && "any"@[1] == 'n');
    assert("all"@[0] == 'a' && "all"@[1] == 'l');
    assert("hd"@[0] == 'h' && "hd"@[1] == 'd');
    assert("td"@[0] == 't' && "td"@[1] == 'd');
}

} // verus!
