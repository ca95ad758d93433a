//! Conditions, groups of conditions, and the matcher that evaluates them.

use vstd::pervasive::unreached;
use vstd::prelude::*;

use crate::error::{view_of, Error, ErrorView};
use crate::falsey::UnwrapOrFalseyHosting;
pub use crate::field::Field;
use crate::grammar::compile;
use crate::lexer::Lexer;
use crate::models::Message;
use crate::ope::prelude::{
    AllOperator, AnyOperator, EqOperator, EqOperatorForContentLen, GeOperator,
    GeOperatorForContentLen, GtOperator, GtOperatorForContentLen, HdOperator, InOperator,
    LeOperator, LeOperatorForContentLen,
};
pub use crate::ope::Operator;
use crate::parser::Parser;
use crate::registry::{
    accepted, accepts, contains_operator, eq_any_all_hd, eq_gt_ge_le, eq_in, eq_in_any_all,
    eq_in_any_all_hd, eq_in_hd, field_operators, reads_number,
};
use crate::result::Result;
pub use crate::semantics::Outcome;
use crate::semantics::{
    apply, cont_holds, evaluate, group_matches, groups_match, lemma_evaluate_fails, threaded,
    Attribute,
};
use crate::text::chars_of;
use crate::truthy::IsTruthy;
pub use crate::value::{
    all_letters, first_decimal, first_letter, first_number, letter_of, number_of, RefSingleValue,
    Value, ValueView, Values,
};

verus! {

/// The groups of a rule: a condition list per group.
pub type Groups = Vec<Vec<Cont>>;

/// One condition of a rule.
#[derive(Debug)]
pub struct Cont {
    /// Whether the condition is preceded by `not`.
    pub is_negative: bool,
    /// The field that the condition reads.
    pub field: Field,
    /// The operator, unless the condition is a presence check.
    pub operator: Option<Operator>,
    /// The values, unless the condition is a presence check.
    pub value: Option<Values>,
}

/// The mathematical content of a [`Cont`].
pub struct ContView {
    pub is_negative: bool,
    pub field: Field,
    pub operator: Option<Operator>,
    pub value: Option<Seq<ValueView>>,
}

impl View for Cont {
    type V = ContView;

    open spec fn view(&self) -> ContView {
        ContView {
            is_negative: self.is_negative,
            field: self.field,
            operator: self.operator,
            value: match self.value {
                Some(values) => Some(values.deep_view()),
                None => None,
            },
        }
    }
}

impl DeepView for Cont {
    type V = ContView;

    open spec fn deep_view(&self) -> ContView {
        self@
    }
}

/// Why values do not suit an operator of a field, if they do not.
///
/// There must be a value. A field that reads a number needs a number as its
/// first value. Of a field that reads a text, the operators that read every
/// value need texts only, and the others need a text as the first value.
pub open spec fn unsuited(field: Field, operator: Operator, values: Seq<ValueView>) -> Option<
    ErrorView,
> {
    if reads_number(field) {
        match first_decimal(values) {
            Err(e) => Some(e),
            Ok(_) => None,
        }
    } else if operator == Operator::In || operator == Operator::Any || operator == Operator::All {
        match first_number(values) {
            Some(value) => Some(ErrorView::NotAString { value }),
            None => if values.len() == 0 {
                Some(ErrorView::RefValueInEmptyList)
            } else {
                None
            },
        }
    } else {
        match first_letter(values) {
            Err(e) => Some(e),
            Ok(_) => None,
        }
    }
}

impl ContView {
    /// Whether the condition is one that can be made from names: a presence
    /// check of a field that takes no operator, or a field with an operator
    /// that it takes and at least one value, all of which suit the two.
    pub open spec fn well_formed(self) -> bool {
        match (self.operator, self.value) {
            (None, None) => accepted(self.field) == Some(Seq::<Operator>::empty()),
            (Some(operator), Some(values)) => accepts(self.field, operator) && unsuited(
                self.field,
                operator,
                values,
            ) is None,
            _ => false,
        }
    }
}

/// A well-formed condition holds an operator exactly if it holds values,
/// and then holds at least one value.
pub proof fn lemma_well_formed_values(cont: ContView)
    requires
        cont.well_formed(),
    ensures
        cont.operator is Some <==> cont.value is Some,
        cont.value matches Some(values) ==> values.len() > 0,
{
}

/// Whether groups are such as a rule can hold: at least one group, at least
/// one condition in each, and each condition well formed.
pub open spec fn well_formed_groups(groups: Seq<Seq<ContView>>) -> bool {
    &&& groups.len() > 0
    &&& forall|i: int| 0 <= i < groups.len() ==> well_formed_group(#[trigger] groups[i])
}

/// Whether a group is such as a rule can hold: at least one condition, and
/// each condition well formed.
pub open spec fn well_formed_group(conts: Seq<ContView>) -> bool {
    &&& conts.len() > 0
    &&& forall|i: int| 0 <= i < conts.len() ==> (#[trigger] conts[i]).well_formed()
}

/// A result with its error taken by its view.
pub open spec fn outcome_view_of(r: Result<Outcome>) -> core::result::Result<Outcome, ErrorView> {
    match r {
        Ok(outcome) => Ok(outcome),
        Err(e) => Err(e@),
    }
}

/// A result with its condition and its error taken by their views.
pub open spec fn cont_view_of(r: Result<Cont>) -> core::result::Result<ContView, ErrorView> {
    match r {
        Ok(cont) => Ok(cont@),
        Err(e) => Err(e@),
    }
}

/// The condition that a field name, an operator name and values make.
///
/// The operator must have a name, then the field; the field must be in the
/// registry, and must take the operator; the values must suit the two.
pub open spec fn new_cont(
    is_negative: bool,
    field: Seq<char>,
    operator: Seq<char>,
    value: Seq<ValueView>,
) -> core::result::Result<ContView, ErrorView> {
    match (Operator::named(operator), Field::named(field)) {
        (None, _) => Err(ErrorView::UnknownOperator { operator }),
        (Some(_), None) => Err(ErrorView::UnknownField { field }),
        (Some(operator), Some(field)) => match accepted(field) {
            None => Err(ErrorView::FieldNotEnabled { field }),
            Some(operators) => if !operators.contains(operator) {
                Err(ErrorView::UnsupportedOperator { field, operator })
            } else {
                match unsuited(field, operator, value) {
                    Some(e) => Err(e),
                    None => Ok(
                        ContView {
                            is_negative,
                            field,
                            operator: Some(operator),
                            value: Some(value),
                        },
                    ),
                }
            },
        },
    }
}

/// The presence check that a field name makes.
///
/// The field must have a name and be in the registry, and must take no
/// operator.
pub open spec fn single_field_cont(is_negative: bool, field: Seq<char>) -> core::result::Result<
    ContView,
    ErrorView,
> {
    match Field::named(field) {
        None => Err(ErrorView::UnknownField { field }),
        Some(field) => match accepted(field) {
            None => Err(ErrorView::FieldNotEnabled { field }),
            Some(operators) => if operators.len() > 0 {
                Err(ErrorView::FieldRequireOperator { field })
            } else {
                Ok(ContView { is_negative, field, operator: None, value: None })
            },
        },
    }
}

/// A compiled rule: groups of conditions.
///
/// The matcher matches a message when a group matches it, and a group
/// matches when each of its conditions holds.
#[derive(Debug)]
pub struct Matcher {
    /// The groups of conditions.
    pub groups: Groups,
    // Whether the group that was evaluated last matched.
    is_last_match: bool,
}

impl View for Matcher {
    type V = Seq<Seq<ContView>>;

    closed spec fn view(&self) -> Seq<Seq<ContView>> {
        self.groups.deep_view()
    }
}

/// A result with its matcher and its error taken by their views.
pub open spec fn matcher_view_of(r: Result<Matcher>) -> core::result::Result<
    Seq<Seq<ContView>>,
    ErrorView,
> {
    match r {
        Ok(matcher) => Ok(matcher@),
        Err(e) => Err(e@),
    }
}

impl Matcher {
    /// Compiles a rule text into its matcher.
    pub fn from_rule(rule: &str) -> (r: Result<Self>)
        requires
            rule@.len() < usize::MAX,
        ensures
            matcher_view_of(r) == compile(rule@),
    {
        let input = chars_of(rule);
        let mut lexer = Lexer::new(input.as_slice());
        let parser = Parser::new(&mut lexer)?;
        parser.parse()
    }

    /// Makes a matcher out of groups of conditions.
    pub fn new(groups: Groups) -> (r: Self)
        ensures
            r@ == groups.deep_view(),
    {
        Matcher { groups, is_last_match: true }
    }
}

// Checks that there is a value, and that every value is a text.
fn check_letters(values: &Values) -> (r: Result<()>)
    ensures
        match first_number(values.deep_view()) {
            Some(value) => r matches Err(Error::NotAString { value: found }) && found@ == value,
            None => if values.deep_view().len() == 0 {
                r matches Err(Error::RefValueInEmptyList)
            } else {
                r is Ok
            },
        },
{
    let ghost all = values.deep_view();
    let mut i: usize = 0;
    assert(all.skip(0) =~= all);
    while i < values.len()
        invariant
            i <= values@.len(),
            all == values.deep_view(),
            first_number(all.skip(i as int)) == first_number(all),
        decreases values@.len() - i,
    {
        assert(all.skip(i as int).drop_first() =~= all.skip(i + 1));
        if let Value::Decimal(_) = &values[i] {
            return Err(Error::NotAString { value: values[i].duplicate() });
        }
        i += 1;
    }
    if values.len() == 0 {
        return Err(Error::RefValueInEmptyList);
    }
    Ok(())
}

impl Cont {
    /// Makes a condition out of the names of a field and of an operator, and values.
    pub fn new(is_negative: bool, field_str: String, operator_str: String, value: Values) -> (r:
        Result<Self>)
        ensures
            cont_view_of(r) == new_cont(
                is_negative,
                field_str@,
                operator_str@,
                value.deep_view(),
            ),
    {
        let operator = match Operator::from_str(operator_str.as_str()) {
            Some(operator) => operator,
            None => {
                return Err(Error::UnknownOperator { operator: operator_str });
            },
        };
        let field = match Field::from_str(field_str.as_str()) {
            Some(field) => field,
            None => {
                return Err(Error::UnknownField { field: field_str });
            },
        };
        let operators = match field_operators(field) {
            Some(operators) => operators,
            None => {
                return Err(Error::FieldNotEnabled { field });
            },
        };
        if !contains_operator(operators, operator) {
            return Err(Error::UnsupportedOperator { field, operator });
        }
        if contains_operator(operators, Operator::Gt) {
            value.ref_a_decimal()?;
        } else {
            match operator {
                Operator::In | Operator::Any | Operator::All => check_letters(&value)?,
                _ => {
                    value.ref_a_str()?;
                },
            }
        }
        Ok(Cont { is_negative, field, operator: Some(operator), value: Some(value) })
    }

    /// Makes a presence check out of the name of a field.
    pub fn single_field(is_negative: bool, field_str: String) -> (r: Result<Self>)
        ensures
            cont_view_of(r) == single_field_cont(is_negative, field_str@),
    {
        let field = match Field::from_str(field_str.as_str()) {
            Some(field) => field,
            None => {
                return Err(Error::UnknownField { field: field_str });
            },
        };
        match field_operators(field) {
            None => Err(Error::FieldNotEnabled { field }),
            Some(operators) => if operators.len() > 0 {
                Err(Error::FieldRequireOperator { field })
            } else {
                Ok(Cont { is_negative, field, operator: None, value: None })
            },
        }
    }
}

impl Cont {
    // The operator of the condition.
    fn operator(&self) -> (r: Result<&Operator>)
        ensures
            match self.operator {
                Some(operator) => r == Ok::<&Operator, Error>(&operator),
                None => r matches Err(Error::FieldRequireOperator { field }) && field
                    == self.field,
            },
    {
        if let Some(operator) = &self.operator {
            Ok(operator)
        } else {
            Err(Error::FieldRequireOperator { field: self.field })
        }
    }

    // The values of the condition.
    fn value(&self) -> (r: Result<&Values>)
        ensures
            match self.value {
                Some(value) => r == Ok::<&Values, Error>(&value),
                None => r matches Err(Error::FieldRequireValue { field }) && field == self.field,
            },
    {
        if let Some(value) = &self.value {
            Ok(value)
        } else {
            Err(Error::FieldRequireValue { field: self.field })
        }
    }

    // Compares a number of the message with the value.
    fn compare_i64(&self, number: &i64) -> (r: Result<bool>)
        requires
            accepted(self.field) == Some(eq_gt_ge_le()),
        ensures
            view_of(r) == threaded(apply(self@, Attribute::Number(*number as int))),
    {
        proof {
            assert(eq_gt_ge_le()[0] == Operator::Eq);
            assert(eq_gt_ge_le()[1] == Operator::Gt);
            assert(eq_gt_ge_le()[2] == Operator::Ge);
            assert(eq_gt_ge_le()[3] == Operator::Le);
        }
        match *self.operator()? {
            Operator::Eq => number.eq_ope(self.value()?),
            Operator::Gt => number.gt_ope(self.value()?),
            Operator::Ge => number.ge_ope(self.value()?),
            Operator::Le => number.le_ope(self.value()?),
            operator => Err(Error::UnsupportedOperator { field: self.field, operator }),
        }
    }

    // Compares a number of the message with the value.
    fn compare_i32(&self, number: &i32) -> (r: Result<bool>)
        requires
            accepted(self.field) == Some(eq_gt_ge_le()),
        ensures
            view_of(r) == threaded(apply(self@, Attribute::Number(*number as int))),
    {
        proof {
            assert(eq_gt_ge_le()[0] == Operator::Eq);
            assert(eq_gt_ge_le()[1] == Operator::Gt);
            assert(eq_gt_ge_le()[2] == Operator::Ge);
            assert(eq_gt_ge_le()[3] == Operator::Le);
        }
        match *self.operator()? {
            Operator::Eq => number.eq_ope(self.value()?),
            Operator::Gt => number.gt_ope(self.value()?),
            Operator::Ge => number.ge_ope(self.value()?),
            Operator::Le => number.le_ope(self.value()?),
            operator => Err(Error::UnsupportedOperator { field: self.field, operator }),
        }
    }

    // Compares the number of characters of a text of the message with the value.
    fn compare_len(&self, text: &String) -> (r: Result<bool>)
        requires
            accepted(self.field) == Some(eq_gt_ge_le()),
        ensures
            view_of(r) == threaded(apply(self@, Attribute::Number(text@.len() as int))),
    {
        proof {
            assert(eq_gt_ge_le()[0] == Operator::Eq);
            assert(eq_gt_ge_le()[1] == Operator::Gt);
            assert(eq_gt_ge_le()[2] == Operator::Ge);
            assert(eq_gt_ge_le()[3] == Operator::Le);
        }
        match *self.operator()? {
            Operator::Eq => text.eq_ope_for_content_len(self.value()?),
            Operator::Gt => text.gt_ope_for_content_len(self.value()?),
            Operator::Ge => text.ge_ope_for_content_len(self.value()?),
            Operator::Le => text.le_ope_for_content_len(self.value()?),
            operator => Err(Error::UnsupportedOperator { field: self.field, operator }),
        }
    }

    // Compares a free text of the message with the values.
    fn compare_content(&self, text: &String) -> (r: Result<bool>)
        requires
            accepted(self.field) == Some(eq_in_any_all()),
        ensures
            view_of(r) == threaded(apply(self@, Attribute::Text(text@))),
    {
        proof {
            assert(eq_in_any_all()[0] == Operator::Eq);
            assert(eq_in_any_all()[1] == Operator::In);
            assert(eq_in_any_all()[2] == Operator::Any);
            assert(eq_in_any_all()[3] == Operator::All);
        }
        match *self.operator()? {
            Operator::Eq => text.eq_ope(self.value()?),
            Operator::In => text.in_ope(self.value()?),
            Operator::Any => text.any_ope(self.value()?),
            Operator::All => text.all_ope(self.value()?),
            operator => Err(Error::UnsupportedOperator { field: self.field, operator }),
        }
    }

    // Compares a name in the message with the values.
    fn compare_name(&self, text: &String) -> (r: Result<bool>)
        requires
            accepted(self.field) == Some(eq_in_any_all_hd()),
        ensures
            view_of(r) == threaded(apply(self@, Attribute::Text(text@))),
    {
        proof {
            assert(eq_in_any_all_hd()[0] == Operator::Eq);
            assert(eq_in_any_all_hd()[1] == Operator::In);
            assert(eq_in_any_all_hd()[2] == Operator::Any);
            assert(eq_in_any_all_hd()[3] == Operator::All);
            assert(eq_in_any_all_hd()[4] == Operator::Hd);
        }
        match *self.operator()? {
            Operator::Eq => text.eq_ope(self.value()?),
            Operator::In => text.in_ope(self.value()?),
            Operator::Any => text.any_ope(self.value()?),
            Operator::All => text.all_ope(self.value()?),
            Operator::Hd => text.hd_ope(self.value()?),
            operator => Err(Error::UnsupportedOperator { field: self.field, operator }),
        }
    }

    // Compares a code in the message with the values.
    fn compare_code(&self, text: &String) -> (r: Result<bool>)
        requires
            accepted(self.field) == Some(eq_in_hd()),
        ensures
            view_of(r) == threaded(apply(self@, Attribute::Text(text@))),
    {
        proof {
            assert(eq_in_hd()[0] == Operator::Eq);
            assert(eq_in_hd()[1] == Operator::In);
            assert(eq_in_hd()[2] == Operator::Hd);
        }
        match *self.operator()? {
            Operator::Eq => text.eq_ope(self.value()?),
            Operator::In => text.in_ope(self.value()?),
            Operator::Hd => text.hd_ope(self.value()?),
            operator => Err(Error::UnsupportedOperator { field: self.field, operator }),
        }
    }

    // Compares a text of the message that is one of a few with the values.
    fn compare_kind(&self, text: &String) -> (r: Result<bool>)
        requires
            accepted(self.field) == Some(eq_in()),
        ensures
            view_of(r) == threaded(apply(self@, Attribute::Text(text@))),
    {
        proof {
            assert(eq_in()[0] == Operator::Eq);
            assert(eq_in()[1] == Operator::In);
        }
        match *self.operator()? {
            Operator::Eq => text.eq_ope(self.value()?),
            Operator::In => text.in_ope(self.value()?),
            operator => Err(Error::UnsupportedOperator { field: self.field, operator }),
        }
    }

    // Compares a title in the message with the values.
    fn compare_title(&self, text: &String) -> (r: Result<bool>)
        requires
            accepted(self.field) == Some(eq_any_all_hd()),
        ensures
            view_of(r) == threaded(apply(self@, Attribute::Text(text@))),
    {
        proof {
            assert(eq_any_all_hd()[0] == Operator::Eq);
            assert(eq_any_all_hd()[1] == Operator::Any);
            assert(eq_any_all_hd()[2] == Operator::All);
            assert(eq_any_all_hd()[3] == Operator::Hd);
        }
        match *self.operator()? {
            Operator::Eq => text.eq_ope(self.value()?),
            Operator::Any => text.any_ope(self.value()?),
            Operator::All => text.all_ope(self.value()?),
            Operator::Hd => text.hd_ope(self.value()?),
            operator => Err(Error::UnsupportedOperator { field: self.field, operator }),
        }
    }
}

impl Cont {
    // What a condition on a field of the sender gives, before negation.
    fn evaluate_sender(&self, message: &Message) -> (r: Result<bool>)
        requires
            self.field == Field::MessageFromId
                || self.field == Field::MessageFromIsBot
                || self.field == Field::MessageFromFirstName
                || self.field == Field::MessageFromFullName
                || self.field == Field::MessageFromLanguageCode,
        ensures
            view_of(r) == threaded(evaluate(self@, message)),
    {
        match self.field {
            Field::MessageFromId => {
                let from = message.from.unwrap_or_falsey_hosting()?;
                self.compare_i64(&from.id)
            },
            Field::MessageFromIsBot => Ok(
                match &message.from {
                    Some(from) => from.is_bot.is_truthy(),
                    None => false,
                },
            ),
            Field::MessageFromFirstName => {
                let from = message.from.unwrap_or_falsey_hosting()?;
                self.compare_name(&from.first_name)
            },
            Field::MessageFromFullName => {
                let from = message.from.unwrap_or_falsey_hosting()?;
                self.compare_name(&from.full_name())
            },
            Field::MessageFromLanguageCode => {
                let from = message.from.unwrap_or_falsey_hosting()?;
                self.compare_code(from.language_code.unwrap_or_falsey_hosting()?)
            },
            _ => unreached(),
        }
    }

    // What a condition on a field of the chat that the message was forwarded
    // from gives, before negation.
    fn evaluate_forward(&self, message: &Message) -> (r: Result<bool>)
        requires
            self.field == Field::MessageForwardFromChat
                || self.field == Field::MessageForwardFromChatId
                || self.field == Field::MessageForwardFromChatType
                || self.field == Field::MessageForwardFromChatTitle,
        ensures
            view_of(r) == threaded(evaluate(self@, message)),
    {
        match self.field {
            Field::MessageForwardFromChat => Ok(message.forward_from_chat.is_truthy()),
            Field::MessageForwardFromChatId => {
                let chat = message.forward_from_chat.unwrap_or_falsey_hosting()?;
                self.compare_i64(&chat.id)
            },
            Field::MessageForwardFromChatType => {
                let chat = message.forward_from_chat.unwrap_or_falsey_hosting()?;
                self.compare_kind(&chat.type_)
            },
            Field::MessageForwardFromChatTitle => {
                let chat = message.forward_from_chat.unwrap_or_falsey_hosting()?;
                self.compare_title(chat.title.unwrap_or_falsey_hosting()?)
            },
            _ => unreached(),
        }
    }

    // What a condition on a field of the text and of the caption gives, before negation.
    fn evaluate_text(&self, message: &Message) -> (r: Result<bool>)
        requires
            self.field == Field::MessageText
                || self.field == Field::MessageTextLen
                || self.field == Field::MessageTextSize
                || self.field == Field::MessageCaption
                || self.field == Field::MessageCaptionLen,
        ensures
            view_of(r) == threaded(evaluate(self@, message)),
    {
        match self.field {
            Field::MessageText => self.compare_content(message.text.unwrap_or_falsey_hosting()?),
            Field::MessageTextLen | Field::MessageTextSize => self.compare_len(
                message.text.unwrap_or_falsey_hosting()?,
            ),
            Field::MessageCaption => self.compare_title(
                message.caption.unwrap_or_falsey_hosting()?,
            ),
            Field::MessageCaptionLen => self.compare_len(
                message.caption.unwrap_or_falsey_hosting()?,
            ),
            _ => unreached(),
        }
    }

    // What a condition on a field of the animation gives, before negation.
    fn evaluate_animation(&self, message: &Message) -> (r: Result<bool>)
        requires
            self.field == Field::MessageAnimation
                || self.field == Field::MessageAnimationDuration
                || self.field == Field::MessageAnimationFileName
                || self.field == Field::MessageAnimationMimeType
                || self.field == Field::MessageAnimationFileSize,
        ensures
            view_of(r) == threaded(evaluate(self@, message)),
    {
        match self.field {
            Field::MessageAnimation => Ok(message.animation.is_truthy()),
            Field::MessageAnimationDuration => {
                let animation = message.animation.unwrap_or_falsey_hosting()?;
                self.compare_i32(&animation.duration)
            },
            Field::MessageAnimationFileName => {
                let animation = message.animation.unwrap_or_falsey_hosting()?;
                self.compare_title(animation.file_name.unwrap_or_falsey_hosting()?)
            },
            Field::MessageAnimationMimeType => {
                let animation = message.animation.unwrap_or_falsey_hosting()?;
                self.compare_code(animation.mime_type.unwrap_or_falsey_hosting()?)
            },
            Field::MessageAnimationFileSize => {
                let animation = message.animation.unwrap_or_falsey_hosting()?;
                self.compare_i32(animation.file_size.unwrap_or_falsey_hosting()?)
            },
            _ => unreached(),
        }
    }

    // What a condition on a field of the audio file gives, before negation.
    fn evaluate_audio(&self, message: &Message) -> (r: Result<bool>)
        requires
            self.field == Field::MessageAudio
                || self.field == Field::MessageAudioDuration
                || self.field == Field::MessageAudioPerformer
                || self.field == Field::MessageAudioMimeType
                || self.field == Field::MessageAudioFileSize,
        ensures
            view_of(r) == threaded(evaluate(self@, message)),
    {
        match self.field {
            Field::MessageAudio => Ok(message.audio.is_truthy()),
            Field::MessageAudioDuration => {
                let audio = message.audio.unwrap_or_falsey_hosting()?;
                self.compare_i32(&audio.duration)
            },
            Field::MessageAudioPerformer => {
                let audio = message.audio.unwrap_or_falsey_hosting()?;
                self.compare_title(audio.performer.unwrap_or_falsey_hosting()?)
            },
            Field::MessageAudioMimeType => {
                let audio = message.audio.unwrap_or_falsey_hosting()?;
                self.compare_code(audio.mime_type.unwrap_or_falsey_hosting()?)
            },
            Field::MessageAudioFileSize => {
                let audio = message.audio.unwrap_or_falsey_hosting()?;
                self.compare_i32(audio.file_size.unwrap_or_falsey_hosting()?)
            },
            _ => unreached(),
        }
    }

    // What a condition on a field of the document gives, before negation.
    fn evaluate_document(&self, message: &Message) -> (r: Result<bool>)
        requires
            self.field == Field::MessageDocument
                || self.field == Field::MessageDocumentFileName
                || self.field == Field::MessageDocumentMimeType
                || self.field == Field::MessageDocumentFileSize,
        ensures
            view_of(r) == threaded(evaluate(self@, message)),
    {
        match self.field {
            Field::MessageDocument => Ok(message.document.is_truthy()),
            Field::MessageDocumentFileName => {
                let document = message.document.unwrap_or_falsey_hosting()?;
                self.compare_title(document.file_name.unwrap_or_falsey_hosting()?)
            },
            Field::MessageDocumentMimeType => {
                let document = message.document.unwrap_or_falsey_hosting()?;
                self.compare_code(document.mime_type.unwrap_or_falsey_hosting()?)
            },
            Field::MessageDocumentFileSize => {
                let document = message.document.unwrap_or_falsey_hosting()?;
                self.compare_i32(document.file_size.unwrap_or_falsey_hosting()?)
            },
            _ => unreached(),
        }
    }

    // What a condition on a field of the sticker gives, before negation.
    fn evaluate_sticker(&self, message: &Message) -> (r: Result<bool>)
        requires
            self.field == Field::MessageSticker
                || self.field == Field::MessageStickerIsAnimated
                || self.field == Field::MessageStickerEmoji
                || self.field == Field::MessageStickerSetName,
        ensures
            view_of(r) == threaded(evaluate(self@, message)),
    {
        match self.field {
            Field::MessageSticker => Ok(message.sticker.is_truthy()),
            Field::MessageStickerIsAnimated => Ok(
                match &message.sticker {
                    Some(sticker) => sticker.is_animated.is_truthy(),
                    None => false,
                },
            ),
            Field::MessageStickerEmoji => {
                let sticker = message.sticker.unwrap_or_falsey_hosting()?;
                self.compare_kind(sticker.emoji.unwrap_or_falsey_hosting()?)
            },
            Field::MessageStickerSetName => {
                let sticker = message.sticker.unwrap_or_falsey_hosting()?;
                self.compare_title(sticker.set_name.unwrap_or_falsey_hosting()?)
            },
            _ => unreached(),
        }
    }

    // What a condition on a field of the video gives, before negation.
    fn evaluate_video(&self, message: &Message) -> (r: Result<bool>)
        requires
            self.field == Field::MessageVideo
                || self.field == Field::MessageVideoDuration
                || self.field == Field::MessageVideoMimeType
                || self.field == Field::MessageVideoFileSize,
        ensures
            view_of(r) == threaded(evaluate(self@, message)),
    {
        match self.field {
            Field::MessageVideo => Ok(message.video.is_truthy()),
            Field::MessageVideoDuration => {
                let video = message.video.unwrap_or_falsey_hosting()?;
                self.compare_i32(&video.duration)
            },
            Field::MessageVideoMimeType => {
                let video = message.video.unwrap_or_falsey_hosting()?;
                self.compare_code(video.mime_type.unwrap_or_falsey_hosting()?)
            },
            Field::MessageVideoFileSize => {
                let video = message.video.unwrap_or_falsey_hosting()?;
                self.compare_i32(video.file_size.unwrap_or_falsey_hosting()?)
            },
            _ => unreached(),
        }
    }

    // What a condition on a field of the voice note gives, before negation.
    fn evaluate_voice(&self, message: &Message) -> (r: Result<bool>)
        requires
            self.field == Field::MessageVoice
                || self.field == Field::MessageVoiceDuration
                || self.field == Field::MessageVoiceMimeType
                || self.field == Field::MessageVoiceFileSize,
        ensures
            view_of(r) == threaded(evaluate(self@, message)),
    {
        match self.field {
            Field::MessageVoice => Ok(message.voice.is_truthy()),
            Field::MessageVoiceDuration => {
                let voice = message.voice.unwrap_or_falsey_hosting()?;
                self.compare_i32(&voice.duration)
            },
            Field::MessageVoiceMimeType => {
                let voice = message.voice.unwrap_or_falsey_hosting()?;
                self.compare_code(voice.mime_type.unwrap_or_falsey_hosting()?)
            },
            Field::MessageVoiceFileSize => {
                let voice = message.voice.unwrap_or_falsey_hosting()?;
                self.compare_i32(voice.file_size.unwrap_or_falsey_hosting()?)
            },
            _ => unreached(),
        }
    }

    // What a condition on a field of the venue and of the location gives, before negation.
    fn evaluate_place(&self, message: &Message) -> (r: Result<bool>)
        requires
            self.field == Field::MessageVenue
                || self.field == Field::MessageVenueTitle
                || self.field == Field::MessageVenueAddress
                || self.field == Field::MessageLocation
                || self.field == Field::MessageLocationLongitude
                || self.field == Field::MessageLocationLatitude,
        ensures
            view_of(r) == threaded(evaluate(self@, message)),
    {
        match self.field {
            Field::MessageVenue => Ok(message.venue.is_truthy()),
            Field::MessageVenueTitle => {
                let venue = message.venue.unwrap_or_falsey_hosting()?;
                self.compare_title(&venue.title)
            },
            Field::MessageVenueAddress => {
                let venue = message.venue.unwrap_or_falsey_hosting()?;
                self.compare_title(&venue.address)
            },
            Field::MessageLocation => Ok(message.location.is_truthy()),
            Field::MessageLocationLongitude => {
                let location = message.location.unwrap_or_falsey_hosting()?;
                self.compare_i64(&location.longitude)
            },
            Field::MessageLocationLatitude => {
                let location = message.location.unwrap_or_falsey_hosting()?;
                self.compare_i64(&location.latitude)
            },
            _ => unreached(),
        }
    }

    // What a condition on a field of the dice and of the poll gives, before negation.
    fn evaluate_game(&self, message: &Message) -> (r: Result<bool>)
        requires
            self.field == Field::MessageDice
                || self.field == Field::MessageDiceEmoji
                || self.field == Field::MessagePoll
                || self.field == Field::MessagePollType,
        ensures
            view_of(r) == threaded(evaluate(self@, message)),
    {
        match self.field {
            Field::MessageDice => Ok(message.dice.is_truthy()),
            Field::MessageDiceEmoji => {
                let dice = message.dice.unwrap_or_falsey_hosting()?;
                self.compare_kind(&dice.emoji)
            },
            Field::MessagePoll => Ok(message.poll.is_truthy()),
            Field::MessagePollType => {
                let poll = message.poll.unwrap_or_falsey_hosting()?;
                self.compare_kind(&poll.type_)
            },
            _ => unreached(),
        }
    }

    // What the condition gives of the message before negation, with the
    // lack of an answer as the error that the operators give for it.
    fn answer(&self, message: &Message) -> (r: Result<bool>)
        ensures
            view_of(r) == threaded(evaluate(self@, message)),
    {
        match self.field {
            Field::MessageFromId
            | Field::MessageFromIsBot
            | Field::MessageFromFirstName
            | Field::MessageFromFullName
            | Field::MessageFromLanguageCode => self.evaluate_sender(message),
            Field::MessageForwardFromChat
            | Field::MessageForwardFromChatId
            | Field::MessageForwardFromChatType
            | Field::MessageForwardFromChatTitle => self.evaluate_forward(message),
            Field::MessageText
            | Field::MessageTextLen
            | Field::MessageTextSize
            | Field::MessageCaption
            | Field::MessageCaptionLen => self.evaluate_text(message),
            Field::MessageAnimation
            | Field::MessageAnimationDuration
            | Field::MessageAnimationFileName
            | Field::MessageAnimationMimeType
            | Field::MessageAnimationFileSize => self.evaluate_animation(message),
            Field::MessageAudio
            | Field::MessageAudioDuration
            | Field::MessageAudioPerformer
            | Field::MessageAudioMimeType
            | Field::MessageAudioFileSize => self.evaluate_audio(message),
            Field::MessageDocument
            | Field::MessageDocumentFileName
            | Field::MessageDocumentMimeType
            | Field::MessageDocumentFileSize => self.evaluate_document(message),
            Field::MessageSticker
            | Field::MessageStickerIsAnimated
            | Field::MessageStickerEmoji
            | Field::MessageStickerSetName => self.evaluate_sticker(message),
            Field::MessageVideo
            | Field::MessageVideoDuration
            | Field::MessageVideoMimeType
            | Field::MessageVideoFileSize => self.evaluate_video(message),
            Field::MessageVoice
            | Field::MessageVoiceDuration
            | Field::MessageVoiceMimeType
            | Field::MessageVoiceFileSize => self.evaluate_voice(message),
            Field::MessageVenue
            | Field::MessageVenueTitle
            | Field::MessageVenueAddress
            | Field::MessageLocation
            | Field::MessageLocationLongitude
            | Field::MessageLocationLatitude => self.evaluate_place(message),
            Field::MessageDice
            | Field::MessageDiceEmoji
            | Field::MessagePoll
            | Field::MessagePollType => self.evaluate_game(message),
            Field::MessageReplyToMessage => Ok(message.reply_to_message.is_truthy()),
            Field::MessagePhoto => Ok(message.photo.is_truthy()),
            Field::MessageNewChatMembers => Ok(message.new_chat_members.is_truthy()),
            Field::MessageLeftChatMember => Ok(message.left_chat_member.is_truthy()),
            Field::MessageNewChatTitle => Ok(message.new_chat_title.is_truthy()),
            Field::MessageNewChatPhoto => Ok(message.new_chat_photo.is_truthy()),
            Field::MessagePinnedMessage => Ok(message.pinned_message.is_truthy()),
            Field::MessageIsServiceMessage => Ok(
                message.new_chat_members.is_truthy() || message.left_chat_member.is_truthy()
                    || message.new_chat_title.is_truthy() || message.new_chat_photo.is_truthy()
                    || message.pinned_message.is_truthy(),
            ),
            Field::MessageIsCommand => Err(Error::FieldNotEnabled { field: self.field }),
        }
    }

    /// Tells what the condition gives of the message before negation: a
    /// definite answer, or none where the message lacks what the field reads.
    pub fn evaluate(&self, message: &Message) -> (r: Result<Outcome>)
        ensures
            outcome_view_of(r) == evaluate(self@, message),
    {
        proof {
            lemma_evaluate_fails(self@, message);
        }
        match self.answer(message) {
            Ok(answer) => Ok(Outcome::Definite(answer)),
            Err(Error::FalsyValueHosting) => Ok(Outcome::Absent),
            Err(e) => Err(e),
        }
    }

    /// Tells whether the condition holds of the message.
    ///
    /// An attribute that the message lacks satisfies a negated condition, and
    /// no other.
    pub fn match_message(&self, message: &Message) -> (r: Result<bool>)
        ensures
            view_of(r) == cont_holds(self@, message),
    {
        match self.evaluate(message)? {
            Outcome::Definite(no_negative) => Ok(no_negative != self.is_negative),
            Outcome::Absent => Ok(self.is_negative),
        }
    }
}

/// Tells whether every condition of a group holds of the message.
///
/// The conditions are read in order, up to the first that does not hold or
/// that fails.
pub fn group_match(conts: &Vec<Cont>, message: &Message) -> (r: Result<bool>)
    ensures
        view_of(r) == group_matches(conts.deep_view(), message),
{
    let ghost group = conts.deep_view();
    let mut i: usize = 0;
    assert(group.skip(0) =~= group);
    while i < conts.len()
        invariant
            i <= conts@.len(),
            group == conts.deep_view(),
            group_matches(group.skip(i as int), message) == group_matches(group, message),
        decreases conts@.len() - i,
    {
        assert(group.skip(i as int).drop_first() =~= group.skip(i + 1));
        assert(group.skip(i as int)[0] == conts@[i as int]@);
        if !conts[i].match_message(message)? {
            return Ok(false);
        }
        i += 1;
    }
    Ok(true)
}

impl Matcher {
    /// Tells whether the matcher matches the message: whether one of its
    /// groups does.
    ///
    /// The groups are read in order, up to the first that matches or that
    /// fails. The matcher holds the same groups afterwards.
    pub fn match_message(&mut self, message: &Message) -> (r: Result<bool>)
        ensures
            final(self)@ == old(self)@,
            view_of(r) == groups_match(old(self)@, message),
    {
        assert(self@.skip(0) =~= self@);
        self.loop_match(message, 0)
    }

    // Matches the groups from `position` on.
    fn loop_match(&mut self, message: &Message, position: usize) -> (r: Result<bool>)
        requires
            position <= old(self)@.len(),
        ensures
            final(self)@ == old(self)@,
            view_of(r) == groups_match(old(self)@.skip(position as int), message),
    {
        let ghost groups = self@;
        let mut at = position;
        self.is_last_match = false;
        while at < self.groups.len()
            invariant
                position <= at <= groups.len(),
                self@ == groups,
                old(self)@ == groups,
                groups_match(groups.skip(at as int), message) == groups_match(
                    groups.skip(position as int),
                    message,
                ),
            decreases groups.len() - at,
        {
            assert(groups.skip(at as int).drop_first() =~= groups.skip(at + 1));
            assert(groups.skip(at as int)[0] == self.groups@[at as int].deep_view());
            let result = group_match(&self.groups[at], message)?;
            self.is_last_match = result;
            if result {
                return Ok(true);
            }
            at += 1;
        }
        Ok(false)
    }
}

} // verus!
