//! The registry of fields: which operators each field takes in a rule.

use vstd::prelude::*;

use crate::field::Field;
use crate::ope::Operator;

verus! {

/// The operators of a number.
pub open spec fn eq_gt_ge_le() -> Seq<Operator> {
    seq![Operator::Eq, Operator::Gt, Operator::Ge, Operator::Le]
}

/// The operators of a free text.
pub open spec fn eq_in_any_all() -> Seq<Operator> {
    seq![Operator::Eq, Operator::In, Operator::Any, Operator::All]
}

/// The operators of a name.
pub open spec fn eq_in_any_all_hd() -> Seq<Operator> {
    seq![Operator::Eq, Operator::In, Operator::Any, Operator::All, Operator::Hd]
}

/// The operators of a code, such as a media type.
pub open spec fn eq_in_hd() -> Seq<Operator> {
    seq![Operator::Eq, Operator::In, Operator::Hd]
}

/// The operators of a text that is one of a few.
pub open spec fn eq_in() -> Seq<Operator> {
    seq![Operator::Eq, Operator::In]
}

/// The operators of a title.
pub open spec fn eq_any_all_hd() -> Seq<Operator> {
    seq![Operator::Eq, Operator::Any, Operator::All, Operator::Hd]
}

/// The operators that a field takes, in the order in which the registry
/// lists them.
///
/// A field of a presence check takes none. `None` stands for a field that
/// has a name but cannot be used in a rule.
pub open spec fn accepted(field: Field) -> Option<Seq<Operator>> {
    match field {
        Field::MessageFromId
        | Field::MessageForwardFromChatId
        | Field::MessageTextLen
        | Field::MessageTextSize
        | Field::MessageAnimationDuration
        | Field::MessageAnimationFileSize
        | Field::MessageAudioDuration
        | Field::MessageAudioFileSize
        | Field::MessageDocumentFileSize
        | Field::MessageVideoDuration
        | Field::MessageVideoFileSize
        | Field::MessageVoiceDuration
        | Field::MessageVoiceFileSize
        | Field::MessageCaptionLen
        | Field::MessageLocationLongitude
        | Field::MessageLocationLatitude => Some(eq_gt_ge_le()),
        Field::MessageFromFirstName | Field::MessageFromFullName => Some(eq_in_any_all_hd()),
        Field::MessageText => Some(eq_in_any_all()),
        Field::MessageFromLanguageCode
        | Field::MessageAnimationMimeType
        | Field::MessageAudioMimeType
        | Field::MessageDocumentMimeType
        | Field::MessageVideoMimeType
        | Field::MessageVoiceMimeType => Some(eq_in_hd()),
        Field::MessageForwardFromChatType
        | Field::MessageStickerEmoji
        | Field::MessageDiceEmoji
        | Field::MessagePollType => Some(eq_in()),
        Field::MessageForwardFromChatTitle
        | Field::MessageAnimationFileName
        | Field::MessageAudioPerformer
        | Field::MessageDocumentFileName
        | Field::MessageStickerSetName
        | Field::MessageCaption
        | Field::MessageVenueTitle
        | Field::MessageVenueAddress => Some(eq_any_all_hd()),
        Field::MessageFromIsBot
        | Field::MessageForwardFromChat
        | Field::MessageReplyToMessage
        | Field::MessageAnimation
        | Field::MessageAudio
        | Field::MessageDocument
        | Field::MessagePhoto
        | Field::MessageSticker
        | Field::MessageStickerIsAnimated
        | Field::MessageVideo
        | Field::MessageVoice
        | Field::MessageDice
        | Field::MessagePoll
        | Field::MessageVenue
        | Field::MessageLocation
        | Field::MessageNewChatMembers
        | Field::MessageLeftChatMember
        | Field::MessageNewChatTitle
        | Field::MessageNewChatPhoto
        | Field::MessagePinnedMessage
        | Field::MessageIsServiceMessage => Some(seq![]),
        Field::MessageIsCommand => None,
    }
}

/// Whether a rule may apply `operator` to `field`.
pub open spec fn accepts(field: Field, operator: Operator) -> bool {
    accepted(field) matches Some(operators) && operators.contains(operator)
}

/// Whether the field reads a number: whether it takes the operators that
/// order numbers.
pub open spec fn reads_number(field: Field) -> bool {
    accepts(field, Operator::Gt)
}

/// Looks up the operators that a field takes.
pub fn field_operators(field: Field) -> (r: Option<&'static [Operator]>)
    ensures
        match accepted(field) {
            Some(operators) => r matches Some(found) && found@ == operators,
            None => r is None,
        },
{
    match field {
        Field::MessageFromId
        | Field::MessageForwardFromChatId
        | Field::MessageTextLen
        | Field::MessageTextSize
        | Field::MessageAnimationDuration
        | Field::MessageAnimationFileSize
        | Field::MessageAudioDuration
        | Field::MessageAudioFileSize
        | Field::MessageDocumentFileSize
        | Field::MessageVideoDuration
        | Field::MessageVideoFileSize
        | Field::MessageVoiceDuration
        | Field::MessageVoiceFileSize
        | Field::MessageCaptionLen
        | Field::MessageLocationLongitude
        | Field::MessageLocationLatitude => Some(
            &[Operator::Eq, Operator::Gt, Operator::Ge, Operator::Le],
        ),
        Field::MessageFromFirstName | Field::MessageFromFullName => Some(
            &[Operator::Eq, Operator::In, Operator::Any, Operator::All, Operator::Hd],
        ),
        Field::MessageText => Some(&[Operator::Eq, Operator::In, Operator::Any, Operator::All]),
        Field::MessageFromLanguageCode
        | Field::MessageAnimationMimeType
        | Field::MessageAudioMimeType
        | Field::MessageDocumentMimeType
        | Field::MessageVideoMimeType
        | Field::MessageVoiceMimeType => Some(&[Operator::Eq, Operator::In, Operator::Hd]),
        Field::MessageForwardFromChatType
        | Field::MessageStickerEmoji
        | Field::MessageDiceEmoji
        | Field::MessagePollType => Some(&[Operator::Eq, Operator::In]),
        Field::MessageForwardFromChatTitle
        | Field::MessageAnimationFileName
        | Field::MessageAudioPerformer
        | Field::MessageDocumentFileName
        | Field::MessageStickerSetName
        | Field::MessageCaption
        | Field::MessageVenueTitle
        | Field::MessageVenueAddress => Some(
            &[Operator::Eq, Operator::Any, Operator::All, Operator::Hd],
        ),
        Field::MessageFromIsBot
        | Field::MessageForwardFromChat
        | Field::MessageReplyToMessage
        | Field::MessageAnimation
        | Field::MessageAudio
        | Field::MessageDocument
        | Field::MessagePhoto
        | Field::MessageSticker
        | Field::MessageStickerIsAnimated
        | Field::MessageVideo
        | Field::MessageVoice
        | Field::MessageDice
        | Field::MessagePoll
        | Field::MessageVenue
        | Field::MessageLocation
        | Field::MessageNewChatMembers
        | Field::MessageLeftChatMember
        | Field::MessageNewChatTitle
        | Field::MessageNewChatPhoto
        | Field::MessagePinnedMessage
        | Field::MessageIsServiceMessage => Some(&[]),
        Field::MessageIsCommand => None,
    }
}

/// Tells whether `operators` holds `operator`.
pub fn contains_operator(operators: &[Operator], operator: Operator) -> (r: bool)
    ensures
        r == operators@.contains(operator),
{
    let mut i: usize = 0;
    while i < operators.len()
        invariant
            i <= operators@.len(),
            forall|k: int| 0 <= k < i ==> operators@[k] != operator,
        decreases operators@.len() - i,
    {
        if operators[i] == operator {
            return true;
        }
        i += 1;
    }
    false
}

} // verus!
