//! The fields of a message that a condition can name.

use vstd::prelude::*;

use crate::text::str_eq;

verus! {

/// A field of a condition: a dotted path into the message.
#[derive(Debug, PartialEq, Eq, Structural, Copy, Clone, Hash)]
pub enum Field {
    /// The sender's identifier. Written `message.from.id`.
    MessageFromId,
    /// Whether the sender is a bot. Written `message.from.is_bot`.
    MessageFromIsBot,
    /// The sender's first name. Written `message.from.first_name`.
    MessageFromFirstName,
    /// The sender's full name. Written `message.from.full_name`.
    MessageFromFullName,
    /// The sender's language code. Written `message.from.language_code`.
    MessageFromLanguageCode,
    /// Whether the message was forwarded from a chat. Written `message.forward_from_chat`.
    MessageForwardFromChat,
    /// The identifier of the chat the message was forwarded from. Written
    /// `message.forward_from_chat.id`.
    MessageForwardFromChatId,
    /// The type of the chat the message was forwarded from. Written
    /// `message.forward_from_chat.type`.
    MessageForwardFromChatType,
    /// The title of the chat the message was forwarded from. Written
    /// `message.forward_from_chat.title`.
    MessageForwardFromChatTitle,
    /// Whether the message replies to another one. Written `message.reply_to_message`.
    MessageReplyToMessage,
    /// The text of the message. Written `message.text`.
    MessageText,
    /// The number of characters in the text. Written `message.text.len`.
    MessageTextLen,
    /// The number of characters in the text, as `message.text.len` is.
    /// Written `message.text.size`.
    MessageTextSize,
    /// Whether the message holds an animation. Written `message.animation`.
    MessageAnimation,
    /// The duration of the animation. Written `message.animation.duration`.
    MessageAnimationDuration,
    /// The file name of the animation. Written `message.animation.file_name`.
    MessageAnimationFileName,
    /// The media type of the animation. Written `message.animation.mime_type`.
    MessageAnimationMimeType,
    /// The file size of the animation. Written `message.animation.file_size`.
    MessageAnimationFileSize,
    /// Whether the message holds an audio file. Written `message.audio`.
    MessageAudio,
    /// The duration of the audio. Written `message.audio.duration`.
    MessageAudioDuration,
    /// The performer of the audio. Written `message.audio.performer`.
    MessageAudioPerformer,
    /// The media type of the audio. Written `message.audio.mime_type`.
    MessageAudioMimeType,
    /// The file size of the audio. Written `message.audio.file_size`.
    MessageAudioFileSize,
    /// Whether the message holds a document. Written `message.document`.
    MessageDocument,
    /// The file name of the document. Written `message.document.file_name`.
    MessageDocumentFileName,
    /// The media type of the document. Written `message.document.mime_type`.
    MessageDocumentMimeType,
    /// The file size of the document. Written `message.document.file_size`.
    MessageDocumentFileSize,
    /// Whether the message holds a photo. Written `message.photo`.
    MessagePhoto,
    /// Whether the message holds a sticker. Written `message.sticker`.
    MessageSticker,
    /// Whether the sticker is animated. Written `message.sticker.is_animated`.
    MessageStickerIsAnimated,
    /// The emoji of the sticker. Written `message.sticker.emoji`.
    MessageStickerEmoji,
    /// The name of the sticker's set. Written `message.sticker.set_name`.
    MessageStickerSetName,
    /// Whether the message holds a video. Written `message.video`.
    MessageVideo,
    /// The duration of the video. Written `message.video.duration`.
    MessageVideoDuration,
    /// The media type of the video. Written `message.video.mime_type`.
    MessageVideoMimeType,
    /// The file size of the video. Written `message.video.file_size`.
    MessageVideoFileSize,
    /// Whether the message holds a voice note. Written `message.voice`.
    MessageVoice,
    /// The duration of the voice note. Written `message.voice.duration`.
    MessageVoiceDuration,
    /// The media type of the voice note. Written `message.voice.mime_type`.
    MessageVoiceMimeType,
    /// The file size of the voice note. Written `message.voice.file_size`.
    MessageVoiceFileSize,
    /// The caption of the attachment. Written `message.caption`.
    MessageCaption,
    /// The number of characters in the caption. Written `message.caption.len`.
    MessageCaptionLen,
    /// Whether the message holds a dice. Written `message.dice`.
    MessageDice,
    /// The emoji of the dice. Written `message.dice.emoji`.
    MessageDiceEmoji,
    /// Whether the message holds a poll. Written `message.poll`.
    MessagePoll,
    /// The type of the poll. Written `message.poll.type`.
    MessagePollType,
    /// Whether the message holds a venue. Written `message.venue`.
    MessageVenue,
    /// The title of the venue. Written `message.venue.title`.
    MessageVenueTitle,
    /// The address of the venue. Written `message.venue.address`.
    MessageVenueAddress,
    /// Whether the message holds a location. Written `message.location`.
    MessageLocation,
    /// The longitude of the location. Written `message.location.longitude`.
    MessageLocationLongitude,
    /// The latitude of the location. Written `message.location.latitude`.
    MessageLocationLatitude,
    /// Whether members joined the chat. Written `message.new_chat_members`.
    MessageNewChatMembers,
    /// Whether a member left the chat. Written `message.left_chat_member`.
    MessageLeftChatMember,
    /// Whether the chat got a new title. Written `message.new_chat_title`.
    MessageNewChatTitle,
    /// Whether the chat got a new photo. Written `message.new_chat_photo`.
    MessageNewChatPhoto,
    /// Whether a message was pinned. Written `message.pinned_message`.
    MessagePinnedMessage,
    /// Whether the message is a service message. Written `message.is_service_message`.
    MessageIsServiceMessage,
    /// Whether the message is a command. Written `message.is_command`.
    MessageIsCommand,
}

impl Field {
    /// The name of the field in rule text.
    pub open spec fn name(self) -> Seq<char> {
        match self {
            Field::MessageFromId => "message.from.id"@,
            Field::MessageFromIsBot => "message.from.is_bot"@,
            Field::MessageFromFirstName => "message.from.first_name"@,
            Field::MessageFromFullName => "message.from.full_name"@,
            Field::MessageFromLanguageCode => "message.from.language_code"@,
            Field::MessageForwardFromChat => "message.forward_from_chat"@,
            Field::MessageForwardFromChatId => "message.forward_from_chat.id"@,
            Field::MessageForwardFromChatType => "message.forward_from_chat.type"@,
            Field::MessageForwardFromChatTitle => "message.forward_from_chat.title"@,
            Field::MessageReplyToMessage => "message.reply_to_message"@,
            Field::MessageText => "message.text"@,
            Field::MessageTextLen => "message.text.len"@,
            Field::MessageTextSize => "message.text.size"@,
            Field::MessageAnimation => "message.animation"@,
            Field::MessageAnimationDuration => "message.animation.duration"@,
            Field::MessageAnimationFileName => "message.animation.file_name"@,
            Field::MessageAnimationMimeType => "message.animation.mime_type"@,
            Field::MessageAnimationFileSize => "message.animation.file_size"@,
            Field::MessageAudio => "message.audio"@,
            Field::MessageAudioDuration => "message.audio.duration"@,
            Field::MessageAudioPerformer => "message.audio.performer"@,
            Field::MessageAudioMimeType => "message.audio.mime_type"@,
            Field::MessageAudioFileSize => "message.audio.file_size"@,
            Field::MessageDocument => "message.document"@,
            Field::MessageDocumentFileName => "message.document.file_name"@,
            Field::MessageDocumentMimeType => "message.document.mime_type"@,
            Field::MessageDocumentFileSize => "message.document.file_size"@,
            Field::MessagePhoto => "message.photo"@,
            Field::MessageSticker => "message.sticker"@,
            Field::MessageStickerIsAnimated => "message.sticker.is_animated"@,
            Field::MessageStickerEmoji => "message.sticker.emoji"@,
            Field::MessageStickerSetName => "message.sticker.set_name"@,
            Field::MessageVideo => "message.video"@,
            Field::MessageVideoDuration => "message.video.duration"@,
            Field::MessageVideoMimeType => "message.video.mime_type"@,
            Field::MessageVideoFileSize => "message.video.file_size"@,
            Field::MessageVoice => "message.voice"@,
            Field::MessageVoiceDuration => "message.voice.duration"@,
            Field::MessageVoiceMimeType => "message.voice.mime_type"@,
            Field::MessageVoiceFileSize => "message.voice.file_size"@,
            Field::MessageCaption => "message.caption"@,
            Field::MessageCaptionLen => "message.caption.len"@,
            Field::MessageDice => "message.dice"@,
            Field::MessageDiceEmoji => "message.dice.emoji"@,
            Field::MessagePoll => "message.poll"@,
            Field::MessagePollType => "message.poll.type"@,
            Field::MessageVenue => "message.venue"@,
            Field::MessageVenueTitle => "message.venue.title"@,
            Field::MessageVenueAddress => "message.venue.address"@,
            Field::MessageLocation => "message.location"@,
            Field::MessageLocationLongitude => "message.location.longitude"@,
            Field::MessageLocationLatitude => "message.location.latitude"@,
            Field::MessageNewChatMembers => "message.new_chat_members"@,
            Field::MessageLeftChatMember => "message.left_chat_member"@,
            Field::MessageNewChatTitle => "message.new_chat_title"@,
            Field::MessageNewChatPhoto => "message.new_chat_photo"@,
            Field::MessagePinnedMessage => "message.pinned_message"@,
            Field::MessageIsServiceMessage => "message.is_service_message"@,
            Field::MessageIsCommand => "message.is_command"@,
        }
    }

    /// The field that rule text calls `name`, if there is one.
    pub open spec fn named(name: Seq<char>) -> Option<Field> {
        if name == Field::MessageFromId.name() {
            Some(Field::MessageFromId)
        } else if name == Field::MessageFromIsBot.name() {
            Some(Field::MessageFromIsBot)
        } else if name == Field::MessageFromFirstName.name() {
            Some(Field::MessageFromFirstName)
        } else if name == Field::MessageFromFullName.name() {
            Some(Field::MessageFromFullName)
        } else if name == Field::MessageFromLanguageCode.name() {
            Some(Field::MessageFromLanguageCode)
        } else if name == Field::MessageForwardFromChat.name() {
            Some(Field::MessageForwardFromChat)
        } else if name == Field::MessageForwardFromChatId.name() {
            Some(Field::MessageForwardFromChatId)
        } else if name == Field::MessageForwardFromChatType.name() {
            Some(Field::MessageForwardFromChatType)
        } else if name == Field::MessageForwardFromChatTitle.name() {
            Some(Field::MessageForwardFromChatTitle)
        } else if name == Field::MessageReplyToMessage.name() {
            Some(Field::MessageReplyToMessage)
        } else if name == Field::MessageText.name() {
            Some(Field::MessageText)
        } else if name == Field::MessageTextLen.name() {
            Some(Field::MessageTextLen)
        } else if name == Field::MessageTextSize.name() {
            Some(Field::MessageTextSize)
        } else if name == Field::MessageAnimation.name() {
            Some(Field::MessageAnimation)
        } else if name == Field::MessageAnimationDuration.name() {
            Some(Field::MessageAnimationDuration)
        } else if name == Field::MessageAnimationFileName.name() {
            Some(Field::MessageAnimationFileName)
        } else if name == Field::MessageAnimationMimeType.name() {
            Some(Field::MessageAnimationMimeType)
        } else if name == Field::MessageAnimationFileSize.name() {
            Some(Field::MessageAnimationFileSize)
        } else if name == Field::MessageAudio.name() {
            Some(Field::MessageAudio)
        } else if name == Field::MessageAudioDuration.name() {
            Some(Field::MessageAudioDuration)
        } else if name == Field::MessageAudioPerformer.name() {
            Some(Field::MessageAudioPerformer)
        } else if name == Field::MessageAudioMimeType.name() {
            Some(Field::MessageAudioMimeType)
        } else if name == Field::MessageAudioFileSize.name() {
            Some(Field::MessageAudioFileSize)
        } else if name == Field::MessageDocument.name() {
            Some(Field::MessageDocument)
        } else if name == Field::MessageDocumentFileName.name() {
            Some(Field::MessageDocumentFileName)
        } else if name == Field::MessageDocumentMimeType.name() {
            Some(Field::MessageDocumentMimeType)
        } else if name == Field::MessageDocumentFileSize.name() {
            Some(Field::MessageDocumentFileSize)
        } else if name == Field::MessagePhoto.name() {
            Some(Field::MessagePhoto)
        } else if name == Field::MessageSticker.name() {
            Some(Field::MessageSticker)
        } else if name == Field::MessageStickerIsAnimated.name() {
            Some(Field::MessageStickerIsAnimated)
        } else if name == Field::MessageStickerEmoji.name() {
            Some(Field::MessageStickerEmoji)
        } else if name == Field::MessageStickerSetName.name() {
            Some(Field::MessageStickerSetName)
        } else if name == Field::MessageVideo.name() {
            Some(Field::MessageVideo)
        } else if name == Field::MessageVideoDuration.name() {
            Some(Field::MessageVideoDuration)
        } else if name == Field::MessageVideoMimeType.name() {
            Some(Field::MessageVideoMimeType)
        } else if name == Field::MessageVideoFileSize.name() {
            Some(Field::MessageVideoFileSize)
        } else if name == Field::MessageVoice.name() {
            Some(Field::MessageVoice)
        } else if name == Field::MessageVoiceDuration.name() {
            Some(Field::MessageVoiceDuration)
        } else if name == Field::MessageVoiceMimeType.name() {
            Some(Field::MessageVoiceMimeType)
        } else if name == Field::MessageVoiceFileSize.name() {
            Some(Field::MessageVoiceFileSize)
        } else if name == Field::MessageCaption.name() {
            Some(Field::MessageCaption)
        } else if name == Field::MessageCaptionLen.name() {
            Some(Field::MessageCaptionLen)
        } else if name == Field::MessageDice.name() {
            Some(Field::MessageDice)
        } else if name == Field::MessageDiceEmoji.name() {
            Some(Field::MessageDiceEmoji)
        } else if name == Field::MessagePoll.name() {
            Some(Field::MessagePoll)
        } else if name == Field::MessagePollType.name() {
            Some(Field::MessagePollType)
        } else if name == Field::MessageVenue.name() {
            Some(Field::MessageVenue)
        } else if name == Field::MessageVenueTitle.name() {
            Some(Field::MessageVenueTitle)
        } else if name == Field::MessageVenueAddress.name() {
            Some(Field::MessageVenueAddress)
        } else if name == Field::MessageLocation.name() {
            Some(Field::MessageLocation)
        } else if name == Field::MessageLocationLongitude.name() {
            Some(Field::MessageLocationLongitude)
        } else if name == Field::MessageLocationLatitude.name() {
            Some(Field::MessageLocationLatitude)
        } else if name == Field::MessageNewChatMembers.name() {
            Some(Field::MessageNewChatMembers)
        } else if name == Field::MessageLeftChatMember.name() {
            Some(Field::MessageLeftChatMember)
        } else if name == Field::MessageNewChatTitle.name() {
            Some(Field::MessageNewChatTitle)
        } else if name == Field::MessageNewChatPhoto.name() {
            Some(Field::MessageNewChatPhoto)
        } else if name == Field::MessagePinnedMessage.name() {
            Some(Field::MessagePinnedMessage)
        } else if name == Field::MessageIsServiceMessage.name() {
            Some(Field::MessageIsServiceMessage)
        } else if name == Field::MessageIsCommand.name() {
            Some(Field::MessageIsCommand)
        } else {
            None
        }
    }

    /// Finds the field that rule text calls `name`.
    pub fn from_str(name: &str) -> (r: Option<Field>)
        ensures
            r == Field::named(name@),
    {
        if str_eq(name, "message.from.id") {
            Some(Field::MessageFromId)
        } else if str_eq(name, "message.from.is_bot") {
            Some(Field::MessageFromIsBot)
        } else if str_eq(name, "message.from.first_name") {
            Some(Field::MessageFromFirstName)
        } else if str_eq(name, "message.from.full_name") {
            Some(Field::MessageFromFullName)
        } else if str_eq(name, "message.from.language_code") {
            Some(Field::MessageFromLanguageCode)
        } else if str_eq(name, "message.forward_from_chat") {
            Some(Field::MessageForwardFromChat)
        } else if str_eq(name, "message.forward_from_chat.id") {
            Some(Field::MessageForwardFromChatId)
        } else if str_eq(name, "message.forward_from_chat.type") {
            Some(Field::MessageForwardFromChatType)
        } else if str_eq(name, "message.forward_from_chat.title") {
            Some(Field::MessageForwardFromChatTitle)
        } else if str_eq(name, "message.reply_to_message") {
            Some(Field::MessageReplyToMessage)
        } else if str_eq(name, "message.text") {
            Some(Field::MessageText)
        } else if str_eq(name, "message.text.len") {
            Some(Field::MessageTextLen)
        } else if str_eq(name, "message.text.size") {
            Some(Field::MessageTextSize)
        } else if str_eq(name, "message.animation") {
            Some(Field::MessageAnimation)
        } else if str_eq(name, "message.animation.duration") {
            Some(Field::MessageAnimationDuration)
        } else if str_eq(name, "message.animation.file_name") {
            Some(Field::MessageAnimationFileName)
        } else if str_eq(name, "message.animation.mime_type") {
            Some(Field::MessageAnimationMimeType)
        } else if str_eq(name, "message.animation.file_size") {
            Some(Field::MessageAnimationFileSize)
        } else if str_eq(name, "message.audio") {
            Some(Field::MessageAudio)
        } else if str_eq(name, "message.audio.duration") {
            Some(Field::MessageAudioDuration)
        } else if str_eq(name, "message.audio.performer") {
            Some(Field::MessageAudioPerformer)
        } else if str_eq(name, "message.audio.mime_type") {
            Some(Field::MessageAudioMimeType)
        } else if str_eq(name, "message.audio.file_size") {
            Some(Field::MessageAudioFileSize)
        } else if str_eq(name, "message.document") {
            Some(Field::MessageDocument)
        } else if str_eq(name, "message.document.file_name") {
            Some(Field::MessageDocumentFileName)
        } else if str_eq(name, "message.document.mime_type") {
            Some(Field::MessageDocumentMimeType)
        } else if str_eq(name, "message.document.file_size") {
            Some(Field::MessageDocumentFileSize)
        } else if str_eq(name, "message.photo") {
            Some(Field::MessagePhoto)
        } else if str_eq(name, "message.sticker") {
            Some(Field::MessageSticker)
        } else if str_eq(name, "message.sticker.is_animated") {
            Some(Field::MessageStickerIsAnimated)
        } else if str_eq(name, "message.sticker.emoji") {
            Some(Field::MessageStickerEmoji)
        } else if str_eq(name, "message.sticker.set_name") {
            Some(Field::MessageStickerSetName)
        } else if str_eq(name, "message.video") {
            Some(Field::MessageVideo)
        } else if str_eq(name, "message.video.duration") {
            Some(Field::MessageVideoDuration)
        } else if str_eq(name, "message.video.mime_type") {
            Some(Field::MessageVideoMimeType)
        } else if str_eq(name, "message.video.file_size") {
            Some(Field::MessageVideoFileSize)
        } else if str_eq(name, "message.voice") {
            Some(Field::MessageVoice)
        } else if str_eq(name, "message.voice.duration") {
            Some(Field::MessageVoiceDuration)
        } else if str_eq(name, "message.voice.mime_type") {
            Some(Field::MessageVoiceMimeType)
        } else if str_eq(name, "message.voice.file_size") {
            Some(Field::MessageVoiceFileSize)
        } else if str_eq(name, "message.caption") {
            Some(Field::MessageCaption)
        } else if str_eq(name, "message.caption.len") {
            Some(Field::MessageCaptionLen)
        } else if str_eq(name, "message.dice") {
            Some(Field::MessageDice)
        } else if str_eq(name, "message.dice.emoji") {
            Some(Field::MessageDiceEmoji)
        } else if str_eq(name, "message.poll") {
            Some(Field::MessagePoll)
        } else if str_eq(name, "message.poll.type") {
            Some(Field::MessagePollType)
        } else if str_eq(name, "message.venue") {
            Some(Field::MessageVenue)
        } else if str_eq(name, "message.venue.title") {
            Some(Field::MessageVenueTitle)
        } else if str_eq(name, "message.venue.address") {
            Some(Field::MessageVenueAddress)
        } else if str_eq(name, "message.location") {
            Some(Field::MessageLocation)
        } else if str_eq(name, "message.location.longitude") {
            Some(Field::MessageLocationLongitude)
        } else if str_eq(name, "message.location.latitude") {
            Some(Field::MessageLocationLatitude)
        } else if str_eq(name, "message.new_chat_members") {
            Some(Field::MessageNewChatMembers)
        } else if str_eq(name, "message.left_chat_member") {
            Some(Field::MessageLeftChatMember)
        } else if str_eq(name, "message.new_chat_title") {
            Some(Field::MessageNewChatTitle)
        } else if str_eq(name, "message.new_chat_photo") {
            Some(Field::MessageNewChatPhoto)
        } else if str_eq(name, "message.pinned_message") {
            Some(Field::MessagePinnedMessage)
        } else if str_eq(name, "message.is_service_message") {
            Some(Field::MessageIsServiceMessage)
        } else if str_eq(name, "message.is_command") {
            Some(Field::MessageIsCommand)
        } else {
            None
        }
    }

    /// The name of the field in rule text.
    pub fn as_str(&self) -> (r: &'static str)
        ensures
            r@ == self.name(),
    {
        match self {
            Field::MessageFromId => "message.from.id",
            Field::MessageFromIsBot => "message.from.is_bot",
            Field::MessageFromFirstName => "message.from.first_name",
            Field::MessageFromFullName => "message.from.full_name",
            Field::MessageFromLanguageCode => "message.from.language_code",
            Field::MessageForwardFromChat => "message.forward_from_chat",
            Field::MessageForwardFromChatId => "message.forward_from_chat.id",
            Field::MessageForwardFromChatType => "message.forward_from_chat.type",
            Field::MessageForwardFromChatTitle => "message.forward_from_chat.title",
            Field::MessageReplyToMessage => "message.reply_to_message",
            Field::MessageText => "message.text",
            Field::MessageTextLen => "message.text.len",
            Field::MessageTextSize => "message.text.size",
            Field::MessageAnimation => "message.animation",
            Field::MessageAnimationDuration => "message.animation.duration",
            Field::MessageAnimationFileName => "message.animation.file_name",
            Field::MessageAnimationMimeType => "message.animation.mime_type",
            Field::MessageAnimationFileSize => "message.animation.file_size",
            Field::MessageAudio => "message.audio",
            Field::MessageAudioDuration => "message.audio.duration",
            Field::MessageAudioPerformer => "message.audio.performer",
            Field::MessageAudioMimeType => "message.audio.mime_type",
            Field::MessageAudioFileSize => "message.audio.file_size",
            Field::MessageDocument => "message.document",
            Field::MessageDocumentFileName => "message.document.file_name",
            Field::MessageDocumentMimeType => "message.document.mime_type",
            Field::MessageDocumentFileSize => "message.document.file_size",
            Field::MessagePhoto => "message.photo",
            Field::MessageSticker => "message.sticker",
            Field::MessageStickerIsAnimated => "message.sticker.is_animated",
            Field::MessageStickerEmoji => "message.sticker.emoji",
            Field::MessageStickerSetName => "message.sticker.set_name",
            Field::MessageVideo => "message.video",
            Field::MessageVideoDuration => "message.video.duration",
            Field::MessageVideoMimeType => "message.video.mime_type",
            Field::MessageVideoFileSize => "message.video.file_size",
            Field::MessageVoice => "message.voice",
            Field::MessageVoiceDuration => "message.voice.duration",
            Field::MessageVoiceMimeType => "message.voice.mime_type",
            Field::MessageVoiceFileSize => "message.voice.file_size",
            Field::MessageCaption => "message.caption",
            Field::MessageCaptionLen => "message.caption.len",
            Field::MessageDice => "message.dice",
            Field::MessageDiceEmoji => "message.dice.emoji",
            Field::MessagePoll => "message.poll",
            Field::MessagePollType => "message.poll.type",
            Field::MessageVenue => "message.venue",
            Field::MessageVenueTitle => "message.venue.title",
            Field::MessageVenueAddress => "message.venue.address",
            Field::MessageLocation => "message.location",
            Field::MessageLocationLongitude => "message.location.longitude",
            Field::MessageLocationLatitude => "message.location.latitude",
            Field::MessageNewChatMembers => "message.new_chat_members",
            Field::MessageLeftChatMember => "message.left_chat_member",
            Field::MessageNewChatTitle => "message.new_chat_title",
            Field::MessageNewChatPhoto => "message.new_chat_photo",
            Field::MessagePinnedMessage => "message.pinned_message",
            Field::MessageIsServiceMessage => "message.is_service_message",
            Field::MessageIsCommand => "message.is_command",
        }
    }

    /// The name of the field in rule text, as an owned string.
    pub fn to_string(&self) -> (r: String)
        ensures
            r@ == self.name(),
    {
        self.as_str().to_owned()
    }
}

/// A field is the one that its name names: no two fields share a name.
pub proof fn lemma_field_named(field: Field)
    ensures
        Field::named(field.name()) == Some(field),
{
    reveal_strlit("message.from.id");
    reveal_strlit("message.from.is_bot");
    reveal_strlit("message.from.first_name");
    reveal_strlit("message.from.full_name");
    reveal_strlit("message.from.language_code");
    reveal_strlit("message.forward_from_chat");
    reveal_strlit("message.forward_from_chat.id");
    reveal_strlit("message.forward_from_chat.type");
    reveal_strlit("message.forward_from_chat.title");
    reveal_strlit("message.reply_to_message");
    reveal_strlit("message.text");
    reveal_strlit("message.text.len");
    reveal_strlit("message.text.size");
    reveal_strlit("message.animation");
    reveal_strlit("message.animation.duration");
    reveal_strlit("message.animation.file_name");
    reveal_strlit("message.animation.mime_type");
    reveal_strlit("message.animation.file_size");
    reveal_strlit("message.audio");
    reveal_strlit("message.audio.duration");
    reveal_strlit("message.audio.performer");
    reveal_strlit("message.audio.mime_type");
    reveal_strlit("message.audio.file_size");
    reveal_strlit("message.document");
    reveal_strlit("message.document.file_name");
    reveal_strlit("message.document.mime_type");
    reveal_strlit("message.document.file_size");
    reveal_strlit("message.photo");
    reveal_strlit("message.sticker");
    reveal_strlit("message.sticker.is_animated");
    reveal_strlit("message.sticker.emoji");
    reveal_strlit("message.sticker.set_name");
    reveal_strlit("message.video");
    reveal_strlit("message.video.duration");
    reveal_strlit("message.video.mime_type");
    reveal_strlit("message.video.file_size");
    reveal_strlit("message.voice");
    reveal_strlit("message.voice.duration");
    reveal_strlit("message.voice.mime_type");
    reveal_strlit("message.voice.file_size");
    reveal_strlit("message.caption");
    reveal_strlit("message.caption.len");
    reveal_strlit("message.dice");
    reveal_strlit("message.dice.emoji");
    reveal_strlit("message.poll");
    reveal_strlit("message.poll.type");
    reveal_strlit("message.venue");
    reveal_strlit("message.venue.title");
    reveal_strlit("message.venue.address");
    reveal_strlit("message.location");
    reveal_strlit("message.location.longitude");
    reveal_strlit("message.location.latitude");
    reveal_strlit("message.new_chat_members");
    reveal_strlit("message.left_chat_member");
    reveal_strlit("message.new_chat_title");
    reveal_strlit("message.new_chat_photo");
    reveal_strlit("message.pinned_message");
    reveal_strlit("message.is_service_message");
    reveal_strlit("message.is_command");
    // The lengths, and the characters at 11, 19 and 23, tell the names apart.
    assert("message.from.id"@.len() == 15 && "message.from.id"@[11] == 'm');
    assert("message.from.is_bot"@.len() == 19 && "message.from.is_bot"@[11] == 'm');
    assert(
        "message.from.first_name"@.len() == 23
            && "message.from.first_name"@[11] == 'm'
            && "message.from.first_name"@[19] == 'n'
    );
    assert(
        "message.from.full_name"@.len() == 22
            && "message.from.full_name"@[11] == 'm'
            && "message.from.full_name"@[19] == 'a'
    );
    assert(
        "message.from.language_code"@.len() == 26
            && "message.from.language_code"@[11] == 'm'
            && "message.from.language_code"@[19] == 'g'
            && "message.from.language_code"@[23] == 'o'
    );
    assert(
        "message.forward_from_chat"@.len() == 25
            && "message.forward_from_chat"@[11] == 'w'
            && "message.forward_from_chat"@[19] == 'm'
            && "message.forward_from_chat"@[23] == 'a'
    );
    assert(
        "message.forward_from_chat.id"@.len() == 28
            && "message.forward_from_chat.id"@[11] == 'w'
            && "message.forward_from_chat.id"@[19] == 'm'
            && "message.forward_from_chat.id"@[23] == 'a'
    );
    assert(
        "message.forward_from_chat.type"@.len() == 30
            && "message.forward_from_chat.type"@[11] == 'w'
            && "message.forward_from_chat.type"@[19] == 'm'
            && "message.forward_from_chat.type"@[23] == 'a'
    );
    assert(
        "message.forward_from_chat.title"@.len() == 31
            && "message.forward_from_chat.title"@[11] == 'w'
            && "message.forward_from_chat.title"@[19] == 'm'
            && "message.forward_from_chat.title"@[23] == 'a'
    );
    assert(
        "message.reply_to_message"@.len() == 24
            && "message.reply_to_message"@[11] == 'l'
            && "message.reply_to_message"@[19] == 's'
            && "message.reply_to_message"@[23] == 'e'
    );
    assert("message.text"@.len() == 12 && "message.text"@[11] == 't');
    assert("message.text.len"@.len() == 16 && "message.text.len"@[11] == 't');
    assert("message.text.size"@.len() == 17 && "message.text.size"@[11] == 't');
    assert("message.animation"@.len() == 17 && "message.animation"@[11] == 'm');
    assert(
        "message.animation.duration"@.len() == 26
            && "message.animation.duration"@[11] == 'm'
            && "message.animation.duration"@[19] == 'u'
            && "message.animation.duration"@[23] == 'i'
    );
    assert(
        "message.animation.file_name"@.len() == 27
            && "message.animation.file_name"@[11] == 'm'
            && "message.animation.file_name"@[19] == 'i'
            && "message.animation.file_name"@[23] == 'n'
    );
    assert(
        "message.animation.mime_type"@.len() == 27
            && "message.animation.mime_type"@[11] == 'm'
            && "message.animation.mime_type"@[19] == 'i'
            && "message.animation.mime_type"@[23] == 't'
    );
    assert(
        "message.animation.file_size"@.len() == 27
            && "message.animation.file_size"@[11] == 'm'
            && "message.animation.file_size"@[19] == 'i'
            && "message.animation.file_size"@[23] == 's'
    );
    assert("message.audio"@.len() == 13 && "message.audio"@[11] == 'i');
    assert(
        "message.audio.duration"@.len() == 22
            && "message.audio.duration"@[11] == 'i'
            && "message.audio.duration"@[19] == 'i'
    );
    assert(
        "message.audio.performer"@.len() == 23
            && "message.audio.performer"@[11] == 'i'
            && "message.audio.performer"@[19] == 'r'
    );
    assert(
        "message.audio.mime_type"@.len() == 23
            && "message.audio.mime_type"@[11] == 'i'
            && "message.audio.mime_type"@[19] == 't'
    );
    assert(
        "message.audio.file_size"@.len() == 23
            && "message.audio.file_size"@[11] == 'i'
            && "message.audio.file_size"@[19] == 's'
    );
    assert("message.document"@.len() == 16 && "message.document"@[11] == 'u');
    assert(
        "message.document.file_name"@.len() == 26
            && "message.document.file_name"@[11] == 'u'
            && "message.document.file_name"@[19] == 'l'
            && "message.document.file_name"@[23] == 'a'
    );
    assert(
        "message.document.mime_type"@.len() == 26
            && "message.document.mime_type"@[11] == 'u'
            && "message.document.mime_type"@[19] == 'm'
            && "message.document.mime_type"@[23] == 'y'
    );
    assert(
        "message.document.file_size"@.len() == 26
            && "message.document.file_size"@[11] == 'u'
            && "message.document.file_size"@[19] == 'l'
            && "message.document.file_size"@[23] == 'i'
    );
    assert("message.photo"@.len() == 13 && "message.photo"@[11] == 't');
    assert("message.sticker"@.len() == 15 && "message.sticker"@[11] == 'c');
    assert(
        "message.sticker.is_animated"@.len() == 27
            && "message.sticker.is_animated"@[11] == 'c'
            && "message.sticker.is_animated"@[19] == 'a'
            && "message.sticker.is_animated"@[23] == 'a'
    );
    assert(
        "message.sticker.emoji"@.len() == 21
            && "message.sticker.emoji"@[11] == 'c'
            && "message.sticker.emoji"@[19] == 'j'
    );
    assert(
        "message.sticker.set_name"@.len() == 24
            && "message.sticker.set_name"@[11] == 'c'
            && "message.sticker.set_name"@[19] == '_'
            && "message.sticker.set_name"@[23] == 'e'
    );
    assert("message.video"@.len() == 13 && "message.video"@[11] == 'e');
    assert(
        "message.video.duration"@.len() == 22
            && "message.video.duration"@[11] == 'e'
            && "message.video.duration"@[19] == 'i'
    );
    assert(
        "message.video.mime_type"@.len() == 23
            && "message.video.mime_type"@[11] == 'e'
            && "message.video.mime_type"@[19] == 't'
    );
    assert(
        "message.video.file_size"@.len() == 23
            && "message.video.file_size"@[11] == 'e'
            && "message.video.file_size"@[19] == 's'
    );
    assert("message.voice"@.len() == 13 && "message.voice"@[11] == 'c');
    assert(
        "message.voice.duration"@.len() == 22
            && "message.voice.duration"@[11] == 'c'
            && "message.voice.duration"@[19] == 'i'
    );
    assert(
        "message.voice.mime_type"@.len() == 23
            && "message.voice.mime_type"@[11] == 'c'
            && "message.voice.mime_type"@[19] == 't'
    );
    assert(
        "message.voice.file_size"@.len() == 23
            && "message.voice.file_size"@[11] == 'c'
            && "message.voice.file_size"@[19] == 's'
    );
    assert("message.caption"@.len() == 15 && "message.caption"@[11] == 't');
    assert("message.caption.len"@.len() == 19 && "message.caption.len"@[11] == 't');
    assert("message.dice"@.len() == 12 && "message.dice"@[11] == 'e');
    assert("message.dice.emoji"@.len() == 18 && "message.dice.emoji"@[11] == 'e');
    assert("message.poll"@.len() == 12 && "message.poll"@[11] == 'l');
    assert("message.poll.type"@.len() == 17 && "message.poll.type"@[11] == 'l');
    assert("message.venue"@.len() == 13 && "message.venue"@[11] == 'u');
    assert("message.venue.title"@.len() == 19 && "message.venue.title"@[11] == 'u');
    assert(
        "message.venue.address"@.len() == 21
            && "message.venue.address"@[11] == 'u'
            && "message.venue.address"@[19] == 's'
    );
    assert("message.location"@.len() == 16 && "message.location"@[11] == 'a');
    assert(
        "message.location.longitude"@.len() == 26
            && "message.location.longitude"@[11] == 'a'
            && "message.location.longitude"@[19] == 'n'
            && "message.location.longitude"@[23] == 'u'
    );
    assert(
        "message.location.latitude"@.len() == 25
            && "message.location.latitude"@[11] == 'a'
            && "message.location.latitude"@[19] == 't'
            && "message.location.latitude"@[23] == 'd'
    );
    assert(
        "message.new_chat_members"@.len() == 24
            && "message.new_chat_members"@[11] == '_'
            && "message.new_chat_members"@[19] == 'm'
            && "message.new_chat_members"@[23] == 's'
    );
    assert(
        "message.left_chat_member"@.len() == 24
            && "message.left_chat_member"@[11] == 't'
            && "message.left_chat_member"@[19] == 'e'
            && "message.left_chat_member"@[23] == 'r'
    );
    assert(
        "message.new_chat_title"@.len() == 22
            && "message.new_chat_title"@[11] == '_'
            && "message.new_chat_title"@[19] == 't'
    );
    assert(
        "message.new_chat_photo"@.len() == 22
            && "message.new_chat_photo"@[11] == '_'
            && "message.new_chat_photo"@[19] == 'o'
    );
    assert(
        "message.pinned_message"@.len() == 22
            && "message.pinned_message"@[11] == 'n'
            && "message.pinned_message"@[19] == 'a'
    );
    assert(
        "message.is_service_message"@.len() == 26
            && "message.is_service_message"@[11] == 's'
            && "message.is_service_message"@[19] == 'm'
            && "message.is_service_message"@[23] == 'a'
    );
    assert("message.is_command"@.len() == 18 && "message.is_command"@[11] == 'c');
}

} // verus!
