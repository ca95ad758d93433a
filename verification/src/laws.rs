//! Laws of evaluation: negation, the conjunction inside a group, and the
//! disjunction of groups.

use vstd::prelude::*;

use crate::error::{answer, ErrorView};
use crate::grammar::{compile, lemma_compile_well_formed};
use crate::matcher::{well_formed_group, well_formed_groups, ContView};
use crate::models::Message;
use crate::ope::all::lemma_all_of;
use crate::ope::any::lemma_any_of;
use crate::ope::in_::lemma_in_of;
use crate::semantics::{
    attribute, cont_holds, evaluate, group_matches, groups_match, Attribute, Outcome,
};
use crate::value::{all_letters, lemma_first_number};

verus! {

/// The condition `cont` with or without `not` before it.
pub open spec fn with_negation(cont: ContView, is_negative: bool) -> ContView {
    ContView { is_negative, ..cont }
}

/// Negation turns a definite answer into its opposite, and an absent
/// attribute satisfies the negated condition only.
///
/// Where a condition gives the answer `b` before negation, the condition
/// without `not` gives `b` and the one with `not` gives `!b`. Where it gives
/// no answer, the condition without `not` does not hold and the one with
/// `not` holds. Where it fails, both fail alike.
pub proof fn lemma_negation(cont: ContView, message: &Message)
    ensures
        ({
            let plain = cont_holds(with_negation(cont, false), message);
            let negated = cont_holds(with_negation(cont, true), message);
            match evaluate(cont, message) {
                Ok(Outcome::Definite(b)) => plain == answer(b) && negated == answer(!b),
                Ok(Outcome::Absent) => plain == answer(false) && negated == answer(true),
                Err(e) => plain == Err::<bool, ErrorView>(e) && negated == Err::<bool, ErrorView>(
                    e,
                ),
            }
        }),
{
}

/// A condition gives no answer exactly where the message lacks what its
/// field reads, whatever else the condition holds.
pub proof fn lemma_absent(cont: ContView, message: &Message)
    ensures
        evaluate(cont, message) == Ok::<Outcome, ErrorView>(Outcome::Absent) <==> attribute(
            cont.field,
            message,
        ) is Absent,
{
}

/// A well-formed condition never fails: of every message it holds or it
/// does not.
///
/// So a condition made from names, as those of a compiled rule are, gives an
/// answer whatever the message holds and lacks.
pub proof fn lemma_well_formed_holds(cont: ContView, message: &Message)
    requires
        cont.well_formed(),
    ensures
        cont_holds(cont, message) is Ok,
{
    if let Some(values) = cont.value {
        lemma_first_number(values);
        if let Attribute::Text(text) = attribute(cont.field, message) {
            if all_letters(values) {
                lemma_all_of(text, values);
                lemma_any_of(text, values);
                lemma_in_of(text, values);
            }
        }
    }
}

/// A group stops at its first condition that does not hold.
///
/// Where the conditions before `at` hold, the group gives what the
/// condition at `at` gives, unless that one holds too; what follows it is not
/// read, whether it would hold, not hold or fail.
pub proof fn lemma_group_stops(conts: Seq<ContView>, message: &Message, at: int)
    requires
        0 <= at < conts.len(),
        forall|i: int| 0 <= i < at ==> cont_holds(#[trigger] conts[i], message) == answer(true),
        cont_holds(conts[at], message) != answer(true),
    ensures
        group_matches(conts, message) == cont_holds(conts[at], message),
    decreases at,
{
    if at > 0 {
        let rest = conts.drop_first();
        assert forall|i: int| 0 <= i < at - 1 implies cont_holds(#[trigger] rest[i], message)
            == answer(true) by {
            assert(rest[i] == conts[i + 1]);
        }
        lemma_group_stops(rest, message, at - 1);
    }
}

/// A group matches where every condition holds.
pub proof fn lemma_group_of_holding(conts: Seq<ContView>, message: &Message)
    requires
        forall|i: int|
            0 <= i < conts.len() ==> cont_holds(#[trigger] conts[i], message) == answer(true),
    ensures
        group_matches(conts, message) == answer(true),
    decreases conts.len(),
{
    if conts.len() > 0 {
        let rest = conts.drop_first();
        assert forall|i: int| 0 <= i < rest.len() implies cont_holds(#[trigger] rest[i], message)
            == answer(true) by {
            assert(rest[i] == conts[i + 1]);
        }
        lemma_group_of_holding(rest, message);
    }
}

/// Whether every condition of a group holds of the message.
pub open spec fn all_hold(conts: Seq<ContView>, message: &Message) -> bool {
    forall|i: int| 0 <= i < conts.len() ==> cont_holds(#[trigger] conts[i], message) == answer(true)
}

/// Where no condition of a group fails, the group is the conjunction of its
/// conditions.
pub proof fn lemma_group_is_conjunction(conts: Seq<ContView>, message: &Message)
    requires
        forall|i: int| 0 <= i < conts.len() ==> cont_holds(#[trigger] conts[i], message) is Ok,
    ensures
        group_matches(conts, message) == answer(all_hold(conts, message)),
    decreases conts.len(),
{
    if conts.len() > 0 {
        let rest = conts.drop_first();
        assert forall|i: int| 0 <= i < rest.len() implies cont_holds(
            #[trigger] rest[i],
            message,
        ) is Ok by {
            assert(rest[i] == conts[i + 1]);
        }
        lemma_group_is_conjunction(rest, message);
        if cont_holds(conts[0], message) == answer(true) {
            if all_hold(rest, message) {
                assert forall|i: int| 0 <= i < conts.len() implies cont_holds(
                    #[trigger] conts[i],
                    message,
                ) == answer(true) by {
                    if i > 0 {
                        assert(conts[i] == rest[i - 1]);
                    }
                }
            } else {
                let i = choose|i: int|
                    0 <= i < rest.len() && cont_holds(#[trigger] rest[i], message) != answer(true);
                assert(conts[i + 1] == rest[i]);
            }
        }
    }
}

/// Groups stop at the first group that matches.
///
/// Where the groups before `at` do not match, the groups give what the group
/// at `at` gives, unless that one does not match either; what follows it is
/// not read.
pub proof fn lemma_groups_stop(groups: Seq<Seq<ContView>>, message: &Message, at: int)
    requires
        0 <= at < groups.len(),
        forall|i: int|
            0 <= i < at ==> group_matches(#[trigger] groups[i], message) == answer(false),
        group_matches(groups[at], message) != answer(false),
    ensures
        groups_match(groups, message) == group_matches(groups[at], message),
    decreases at,
{
    if at > 0 {
        let rest = groups.drop_first();
        assert forall|i: int| 0 <= i < at - 1 implies group_matches(#[trigger] rest[i], message)
            == answer(false) by {
            assert(rest[i] == groups[i + 1]);
        }
        lemma_groups_stop(rest, message, at - 1);
    }
}

/// Whether one of the groups matches the message.
pub open spec fn any_matches(groups: Seq<Seq<ContView>>, message: &Message) -> bool {
    exists|i: int|
        0 <= i < groups.len() && group_matches(#[trigger] groups[i], message) == answer(true)
}

/// Where no group fails, the groups are the disjunction of the groups.
pub proof fn lemma_groups_are_disjunction(groups: Seq<Seq<ContView>>, message: &Message)
    requires
        forall|i: int| 0 <= i < groups.len() ==> group_matches(#[trigger] groups[i], message) is Ok,
    ensures
        groups_match(groups, message) == answer(any_matches(groups, message)),
    decreases groups.len(),
{
    if groups.len() > 0 {
        let rest = groups.drop_first();
        assert forall|i: int| 0 <= i < rest.len() implies group_matches(
            #[trigger] rest[i],
            message,
        ) is Ok by {
            assert(rest[i] == groups[i + 1]);
        }
        lemma_groups_are_disjunction(rest, message);
        if group_matches(groups[0], message) == answer(false) {
            if any_matches(rest, message) {
                let i = choose|i: int|
                    0 <= i < rest.len() && group_matches(#[trigger] rest[i], message) == answer(
                        true,
                    );
                assert(groups[i + 1] == rest[i]);
            } else {
                assert forall|i: int| 0 <= i < groups.len() implies group_matches(
                    #[trigger] groups[i],
                    message,
                ) != answer(true) by {
                    if i > 0 {
                        assert(groups[i] == rest[i - 1]);
                    }
                }
            }
        }
    }
}

/// The rule `(a and b) or (c)` matches exactly where `a` and `b` hold, or `c`
/// holds, as long as no condition fails.
pub proof fn lemma_and_or(a: ContView, b: ContView, c: ContView, message: &Message)
    requires
        cont_holds(a, message) is Ok,
        cont_holds(b, message) is Ok,
        cont_holds(c, message) is Ok,
    ensures
        groups_match(seq![seq![a, b], seq![c]], message) == answer(
            cont_holds(a, message)->Ok_0 && cont_holds(b, message)->Ok_0 || cont_holds(
                c,
                message,
            )->Ok_0,
        ),
{
    lemma_and_or_reads(a, b, c, message);
}

/// The rule `(a and b) or (c)` reads `b` only where `a` holds, and `c` only
/// where `a` or `b` does not hold.
///
/// So where `a` does not hold, the rule gives what `c` gives even where `b`
/// would fail, and where `a` and `b` hold, the rule matches even where `c`
/// would fail.
pub proof fn lemma_and_or_reads(a: ContView, b: ContView, c: ContView, message: &Message)
    ensures
        groups_match(seq![seq![a, b], seq![c]], message) == match cont_holds(a, message) {
            Err(e) => Err(e),
            Ok(false) => cont_holds(c, message),
            Ok(true) => match cont_holds(b, message) {
                Err(e) => Err(e),
                Ok(false) => cont_holds(c, message),
                Ok(true) => Ok(true),
            },
        },
{
    let first = seq![a, b];
    let second = seq![c];
    let groups = seq![first, second];
    assert(first.drop_first() =~= seq![b]);
    assert(seq![b].drop_first() =~= Seq::<ContView>::empty());
    assert(second.drop_first() =~= Seq::<ContView>::empty());
    assert(groups.drop_first() =~= seq![second]);
    assert(seq![second].drop_first() =~= Seq::<Seq<ContView>>::empty());
    assert(group_matches(Seq::<ContView>::empty(), message) == answer(true));
    assert(groups_match(Seq::<Seq<ContView>>::empty(), message) == answer(false));
    assert(group_matches(seq![b], message) == match cont_holds(b, message) {
        Ok(true) => Ok(true),
        other => other,
    });
    assert(group_matches(second, message) == cont_holds(c, message));
    assert(groups_match(seq![second], message) == group_matches(second, message));
}

/// Whether each condition of one of the groups holds of the message.
pub open spec fn one_group_holds(groups: Seq<Seq<ContView>>, message: &Message) -> bool {
    exists|i: int| 0 <= i < groups.len() && all_hold(#[trigger] groups[i], message)
}

/// Well-formed groups never fail: they match a message exactly where each
/// condition of one group holds of it.
pub proof fn lemma_well_formed_match(groups: Seq<Seq<ContView>>, message: &Message)
    requires
        well_formed_groups(groups),
    ensures
        groups_match(groups, message) == answer(one_group_holds(groups, message)),
{
    assert forall|i: int| 0 <= i < groups.len() implies group_matches(
        #[trigger] groups[i],
        message,
    ) == answer(all_hold(groups[i], message)) by {
        let conts = groups[i];
        assert(well_formed_group(conts));
        assert forall|k: int| 0 <= k < conts.len() implies cont_holds(
            #[trigger] conts[k],
            message,
        ) is Ok by {
            lemma_well_formed_holds(conts[k], message);
        }
        lemma_group_is_conjunction(conts, message);
    }
    lemma_groups_are_disjunction(groups, message);
    if any_matches(groups, message) {
        let i = choose|i: int|
            0 <= i < groups.len() && group_matches(#[trigger] groups[i], message) == answer(true);
        assert(all_hold(groups[i], message));
    }
    if one_group_holds(groups, message) {
        let i = choose|i: int| 0 <= i < groups.len() && all_hold(#[trigger] groups[i], message);
        assert(group_matches(groups[i], message) == answer(true));
    }
}

/// A rule that compiles never fails to match: it matches a message exactly
/// where each condition of one of its groups holds of it.
pub proof fn lemma_compiled_match(text: Seq<char>, message: &Message)
    ensures
        compile(text) matches Ok(groups) ==> groups_match(groups, message) == answer(
            one_group_holds(groups, message),
        ),
{
    lemma_compile_well_formed(text);
    if let Ok(groups) = compile(text) {
        lemma_well_formed_match(groups, message);
    }
}

} // verus!
