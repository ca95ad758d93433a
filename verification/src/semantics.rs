//! What it means for a condition, a group and a matcher to hold of a message.

use vstd::prelude::*;

use crate::error::{Answer, ErrorView};
use crate::field::Field;
use crate::matcher::ContView;
use crate::models::Message;
use crate::ope::all::{all_of, lemma_all_of_fails};
use crate::ope::any::{any_of, lemma_any_of_fails};
use crate::ope::in_::{in_of, lemma_in_of_fails};
use crate::ope::Operator;
use crate::registry::accepts;
use crate::value::{first_decimal, first_letter, ValueView};

verus! {

/// What a field reads in a message.
pub enum Attribute {
    /// A fact about the message.
    Flag(bool),
    /// A text.
    Text(Seq<char>),
    /// A number.
    Number(int),
    /// Nothing: the message lacks the attribute, or the object that holds it.
    Absent,
    /// Nothing: the field cannot be read.
    Disabled,
}

/// An optional text as an attribute.
pub open spec fn optional_text(text: Option<String>) -> Attribute {
    match text {
        Some(text) => Attribute::Text(text@),
        None => Attribute::Absent,
    }
}

/// The number of characters of an optional text as an attribute.
pub open spec fn optional_len(text: Option<String>) -> Attribute {
    match text {
        Some(text) => Attribute::Number(text@.len() as int),
        None => Attribute::Absent,
    }
}

/// An optional number as an attribute.
pub open spec fn optional_number(number: Option<i32>) -> Attribute {
    match number {
        Some(number) => Attribute::Number(number as int),
        None => Attribute::Absent,
    }
}

/// What `field` reads in `message`.
pub open spec fn attribute(field: Field, message: &Message) -> Attribute {
    match field {
        Field::MessageFromId => match message.from {
            Some(from) => Attribute::Number(from.id as int),
            None => Attribute::Absent,
        },
        Field::MessageFromIsBot => Attribute::Flag(
            message.from matches Some(from) && from.is_bot,
        ),
        Field::MessageFromFirstName => match message.from {
            Some(from) => Attribute::Text(from.first_name@),
            None => Attribute::Absent,
        },
        Field::MessageFromFullName => match message.from {
            Some(from) => Attribute::Text(from.spec_full_name()),
            None => Attribute::Absent,
        },
        Field::MessageFromLanguageCode => match message.from {
            Some(from) => optional_text(from.language_code),
            None => Attribute::Absent,
        },
        Field::MessageForwardFromChat => Attribute::Flag(message.forward_from_chat is Some),
        Field::MessageForwardFromChatId => match message.forward_from_chat {
            Some(chat) => Attribute::Number(chat.id as int),
            None => Attribute::Absent,
        },
        Field::MessageForwardFromChatType => match message.forward_from_chat {
            Some(chat) => Attribute::Text(chat.type_@),
            None => Attribute::Absent,
        },
        Field::MessageForwardFromChatTitle => match message.forward_from_chat {
            Some(chat) => optional_text(chat.title),
            None => Attribute::Absent,
        },
        Field::MessageReplyToMessage => Attribute::Flag(message.reply_to_message is Some),
        Field::MessageText => optional_text(message.text),
        Field::MessageTextLen | Field::MessageTextSize => optional_len(message.text),
        Field::MessageAnimation => Attribute::Flag(message.animation is Some),
        Field::MessageAnimationDuration => match message.animation {
            Some(animation) => Attribute::Number(animation.duration as int),
            None => Attribute::Absent,
        },
        Field::MessageAnimationFileName => match message.animation {
            Some(animation) => optional_text(animation.file_name),
            None => Attribute::Absent,
        },
        Field::MessageAnimationMimeType => match message.animation {
            Some(animation) => optional_text(animation.mime_type),
            None => Attribute::Absent,
        },
        Field::MessageAnimationFileSize => match message.animation {
            Some(animation) => optional_number(animation.file_size),
            None => Attribute::Absent,
        },
        Field::MessageAudio => Attribute::Flag(message.audio is Some),
        Field::MessageAudioDuration => match message.audio {
            Some(audio) => Attribute::Number(audio.duration as int),
            None => Attribute::Absent,
        },
        Field::MessageAudioPerformer => match message.audio {
            Some(audio) => optional_text(audio.performer),
            None => Attribute::Absent,
        },
        Field::MessageAudioMimeType => match message.audio {
            Some(audio) => optional_text(audio.mime_type),
            None => Attribute::Absent,
        },
        Field::MessageAudioFileSize => match message.audio {
            Some(audio) => optional_number(audio.file_size),
            None => Attribute::Absent,
        },
        Field::MessageDocument => Attribute::Flag(message.document is Some),
        Field::MessageDocumentFileName => match message.document {
            Some(document) => optional_text(document.file_name),
            None => Attribute::Absent,
        },
        Field::MessageDocumentMimeType => match message.document {
            Some(document) => optional_text(document.mime_type),
            None => Attribute::Absent,
        },
        Field::MessageDocumentFileSize => match message.document {
            Some(document) => optional_number(document.file_size),
            None => Attribute::Absent,
        },
        Field::MessagePhoto => Attribute::Flag(message.photo is Some),
        Field::MessageSticker => Attribute::Flag(message.sticker is Some),
        Field::MessageStickerIsAnimated => Attribute::Flag(
            message.sticker matches Some(sticker) && sticker.is_animated,
        ),
        Field::MessageStickerEmoji => match message.sticker {
            Some(sticker) => optional_text(sticker.emoji),
            None => Attribute::Absent,
        },
        Field::MessageStickerSetName => match message.sticker {
            Some(sticker) => optional_text(sticker.set_name),
            None => Attribute::Absent,
        },
        Field::MessageVideo => Attribute::Flag(message.video is Some),
        Field::MessageVideoDuration => match message.video {
            Some(video) => Attribute::Number(video.duration as int),
            None => Attribute::Absent,
        },
        Field::MessageVideoMimeType => match message.video {
            Some(video) => optional_text(video.mime_type),
            None => Attribute::Absent,
        },
        Field::MessageVideoFileSize => match message.video {
            Some(video) => optional_number(video.file_size),
            None => Attribute::Absent,
        },
        Field::MessageVoice => Attribute::Flag(message.voice is Some),
        Field::MessageVoiceDuration => match message.voice {
            Some(voice) => Attribute::Number(voice.duration as int),
            None => Attribute::Absent,
        },
        Field::MessageVoiceMimeType => match message.voice {
            Some(voice) => optional_text(voice.mime_type),
            None => Attribute::Absent,
        },
        Field::MessageVoiceFileSize => match message.voice {
            Some(voice) => optional_number(voice.file_size),
            None => Attribute::Absent,
        },
        Field::MessageCaption => optional_text(message.caption),
        Field::MessageCaptionLen => optional_len(message.caption),
        Field::MessageDice => Attribute::Flag(message.dice is Some),
        Field::MessageDiceEmoji => match message.dice {
            Some(dice) => Attribute::Text(dice.emoji@),
            None => Attribute::Absent,
        },
        Field::MessagePoll => Attribute::Flag(message.poll is Some),
        Field::MessagePollType => match message.poll {
            Some(poll) => Attribute::Text(poll.type_@),
            None => Attribute::Absent,
        },
        Field::MessageVenue => Attribute::Flag(message.venue is Some),
        Field::MessageVenueTitle => match message.venue {
            Some(venue) => Attribute::Text(venue.title@),
            None => Attribute::Absent,
        },
        Field::MessageVenueAddress => match message.venue {
            Some(venue) => Attribute::Text(venue.address@),
            None => Attribute::Absent,
        },
        Field::MessageLocation => Attribute::Flag(message.location is Some),
        Field::MessageLocationLongitude => match message.location {
            Some(location) => Attribute::Number(location.longitude as int),
            None => Attribute::Absent,
        },
        Field::MessageLocationLatitude => match message.location {
            Some(location) => Attribute::Number(location.latitude as int),
            None => Attribute::Absent,
        },
        Field::MessageNewChatMembers => Attribute::Flag(message.new_chat_members is Some),
        Field::MessageLeftChatMember => Attribute::Flag(message.left_chat_member is Some),
        Field::MessageNewChatTitle => Attribute::Flag(message.new_chat_title is Some),
        Field::MessageNewChatPhoto => Attribute::Flag(message.new_chat_photo is Some),
        Field::MessagePinnedMessage => Attribute::Flag(message.pinned_message is Some),
        Field::MessageIsServiceMessage => Attribute::Flag(
            message.new_chat_members is Some || message.left_chat_member is Some
                || message.new_chat_title is Some || message.new_chat_photo is Some
                || message.pinned_message is Some,
        ),
        Field::MessageIsCommand => Attribute::Disabled,
    }
}

/// What an operator gives of a text and the values of a condition, or
/// `None` for an operator that does not apply to texts.
pub open spec fn compare_text(
    operator: Operator,
    text: Seq<char>,
    values: Seq<ValueView>,
) -> Option<Answer> {
    match operator {
        Operator::Eq => Some(
            match first_letter(values) {
                Ok(value) => Ok(text == value),
                Err(e) => Err(e),
            },
        ),
        Operator::In => Some(in_of(text, values)),
        Operator::Any => Some(any_of(text, values)),
        Operator::All => Some(all_of(text, values)),
        Operator::Hd => Some(
            match first_letter(values) {
                Ok(value) => Ok(value.is_prefix_of(text)),
                Err(e) => Err(e),
            },
        ),
        Operator::Td => Some(
            match first_letter(values) {
                Ok(value) => Ok(value.is_suffix_of(text)),
                Err(e) => Err(e),
            },
        ),
        _ => None,
    }
}

/// What an operator gives of a number and the values of a condition, or
/// `None` for an operator that does not apply to numbers.
pub open spec fn compare_number(
    operator: Operator,
    number: int,
    values: Seq<ValueView>,
) -> Option<Answer> {
    match operator {
        Operator::Eq => Some(
            match first_decimal(values) {
                Ok(value) => Ok(number == value),
                Err(e) => Err(e),
            },
        ),
        Operator::Gt => Some(
            match first_decimal(values) {
                Ok(value) => Ok(number > value),
                Err(e) => Err(e),
            },
        ),
        Operator::Ge => Some(
            match first_decimal(values) {
                Ok(value) => Ok(number >= value),
                Err(e) => Err(e),
            },
        ),
        Operator::Le => Some(
            match first_decimal(values) {
                Ok(value) => Ok(number <= value),
                Err(e) => Err(e),
            },
        ),
        _ => None,
    }
}

/// What an operator gives of an attribute and the values of a condition, or
/// `None` for an operator that does not apply to the attribute.
pub open spec fn compare(
    operator: Operator,
    attribute: Attribute,
    values: Seq<ValueView>,
) -> Option<Answer> {
    match attribute {
        Attribute::Text(text) => compare_text(operator, text, values),
        Attribute::Number(number) => compare_number(operator, number, values),
        _ => None,
    }
}

/// What a condition gives of a message before negation.
#[derive(Debug, PartialEq, Eq, Structural, Copy, Clone)]
pub enum Outcome {
    /// A definite answer.
    Definite(bool),
    /// No answer: the message lacks what the field reads.
    Absent,
}

/// What a condition gives of the attribute that its field reads, before
/// negation.
///
/// An absent attribute gives no answer, whatever else the condition holds,
/// and a flag is the answer as it is. A text or a number is compared: the
/// condition must hold an operator that its field takes, and values.
pub open spec fn apply(cont: ContView, attribute: Attribute) -> Result<Outcome, ErrorView> {
    let field = cont.field;
    match attribute {
        Attribute::Disabled => Err(ErrorView::FieldNotEnabled { field }),
        Attribute::Absent => Ok(Outcome::Absent),
        Attribute::Flag(flag) => Ok(Outcome::Definite(flag)),
        _ => match (cont.operator, cont.value) {
            (None, _) => Err(ErrorView::FieldRequireOperator { field }),
            (Some(operator), value) => if !accepts(field, operator) {
                Err(ErrorView::UnsupportedOperator { field, operator })
            } else {
                match value {
                    None => Err(ErrorView::FieldRequireValue { field }),
                    Some(values) => match compare(operator, attribute, values) {
                        Some(Ok(answer)) => Ok(Outcome::Definite(answer)),
                        Some(Err(e)) => Err(e),
                        None => Err(ErrorView::UnsupportedOperator { field, operator }),
                    },
                }
            },
        },
    }
}

/// What a condition gives of a message before negation: a definite answer,
/// no answer where the attribute is absent, or an error.
pub open spec fn evaluate(cont: ContView, message: &Message) -> Result<Outcome, ErrorView> {
    apply(cont, attribute(cont.field, message))
}

/// An outcome as the operators give it: the lack of an answer is the error
/// `FalsyValueHosting`.
pub open spec fn threaded(outcome: Result<Outcome, ErrorView>) -> Answer {
    match outcome {
        Ok(Outcome::Definite(answer)) => Ok(answer),
        Ok(Outcome::Absent) => Err(ErrorView::FalsyValueHosting),
        Err(e) => Err(e),
    }
}

/// The error `FalsyValueHosting` stands for the lack of an answer only: no
/// condition fails with it.
pub proof fn lemma_evaluate_fails(cont: ContView, message: &Message)
    ensures
        evaluate(cont, message) matches Err(e) ==> e !is FalsyValueHosting,
{
    if let Attribute::Text(text) = attribute(cont.field, message) {
        if let Some(values) = cont.value {
            lemma_all_of_fails(text, values);
            lemma_any_of_fails(text, values);
            lemma_in_of_fails(text, values);
        }
    }
}

/// Whether a condition holds of a message.
///
/// Negation turns a definite answer into its opposite. An absent attribute
/// satisfies a negated condition and no other.
pub open spec fn cont_holds(cont: ContView, message: &Message) -> Answer {
    match evaluate(cont, message) {
        Ok(Outcome::Definite(answer)) => Ok(answer != cont.is_negative),
        Ok(Outcome::Absent) => Ok(cont.is_negative),
        Err(e) => Err(e),
    }
}

/// Whether a group matches a message: each condition holds, read in order up
/// to the first that does not hold or fails.
pub open spec fn group_matches(conts: Seq<ContView>, message: &Message) -> Answer
    decreases conts.len(),
{
    if conts.len() == 0 {
        Ok(true)
    } else {
        match cont_holds(conts[0], message) {
            Ok(true) => group_matches(conts.drop_first(), message),
            other => other,
        }
    }
}

/// Whether groups match a message: one group matches, read in order up to
/// the first that matches or fails.
pub open spec fn groups_match(groups: Seq<Seq<ContView>>, message: &Message) -> Answer
    decreases groups.len(),
{
    if groups.len() == 0 {
        Ok(false)
    } else {
        match group_matches(groups[0], message) {
            Ok(false) => groups_match(groups.drop_first(), message),
            other => other,
        }
    }
}

} // verus!
