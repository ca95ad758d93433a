//! The message that rules are matched against, and the objects it holds.

use std::rc::Rc;
use vstd::prelude::*;
use vstd::string::StringExecFns;

verus! {

/// A message.
#[derive(Debug, Default)]
pub struct Message {
    /// The identifier of the message in its chat.
    pub message_id: i64,
    /// The sender; none for messages sent to channels.
    pub from: Option<User>,
    /// For a forwarded message, the sender of the message that was forwarded.
    pub forward_from: Option<User>,
    /// For a message forwarded from a channel, the channel.
    pub forward_from_chat: Option<Chat>,
    /// For a reply, the message that is replied to.
    pub reply_to_message: Option<Rc<Message>>,
    /// The bot through which the message was sent.
    pub via_bot: Option<User>,
    /// The text of a text message.
    pub text: Option<String>,
    /// The entities that appear in the text.
    pub entities: Option<Vec<MessageEntity>>,
    /// The animation that the message holds.
    pub animation: Option<Animation>,
    /// The audio file that the message holds.
    pub audio: Option<Audio>,
    /// The document that the message holds.
    pub document: Option<Document>,
    /// The sizes of the photo that the message holds.
    pub photo: Option<Vec<PhotoSize>>,
    /// The sticker that the message holds.
    pub sticker: Option<Sticker>,
    /// The video that the message holds.
    pub video: Option<Video>,
    /// The video note that the message holds.
    pub video_note: Option<VideoNote>,
    /// The voice note that the message holds.
    pub voice: Option<Voice>,
    /// The caption of the attachment.
    pub caption: Option<String>,
    /// The entities that appear in the caption.
    pub caption_entities: Option<Vec<MessageEntity>>,
    /// The dice that the message holds.
    pub dice: Option<Dice>,
    /// The poll that the message holds.
    pub poll: Option<Poll>,
    /// The venue that the message holds.
    pub venue: Option<Venue>,
    /// The location that the message shares.
    pub location: Option<Location>,
    /// The members that joined the chat.
    pub new_chat_members: Option<Vec<User>>,
    /// The member that left the chat.
    pub left_chat_member: Option<User>,
    /// The new title of the chat.
    pub new_chat_title: Option<String>,
    /// The new photo of the chat.
    pub new_chat_photo: Option<Vec<PhotoSize>>,
    /// The message that was pinned.
    pub pinned_message: Option<Rc<Message>>,
}

/// A user or a bot.
#[derive(Debug, Default)]
pub struct User {
    /// The identifier of the user.
    pub id: i64,
    /// Whether the user is a bot.
    pub is_bot: bool,
    /// The first name.
    pub first_name: String,
    /// The last name.
    pub last_name: Option<String>,
    /// The user name.
    pub username: Option<String>,
    /// The language tag of the user's language.
    pub language_code: Option<String>,
}

/// A chat.
#[derive(Debug, Default)]
pub struct Chat {
    /// The identifier of the chat.
    pub id: i64,
    /// The type of the chat: `private`, `group`, `supergroup` or `channel`.
    pub type_: String,
    /// The title, for supergroups, channels and group chats.
    pub title: Option<String>,
}

/// An entity in the text of a message, such as a hashtag or a user name.
#[derive(Debug, Default)]
pub struct MessageEntity {
    /// The type of the entity.
    pub type_: String,
    /// Where the entity starts, in UTF-16 code units.
    pub offset: i32,
    /// The length of the entity, in UTF-16 code units.
    pub length: i32,
    /// For a text link, the address that it opens.
    pub url: Option<String>,
    /// For a text mention, the user that is mentioned.
    pub user: Option<User>,
    /// For a code block, its programming language.
    pub language: Option<String>,
}

/// An animation file.
#[derive(Debug, Default)]
pub struct Animation {
    /// The duration in seconds.
    pub duration: i32,
    /// The file name.
    pub file_name: Option<String>,
    /// The media type.
    pub mime_type: Option<String>,
    /// The file size.
    pub file_size: Option<i32>,
}

/// An audio file.
#[derive(Debug, Default)]
pub struct Audio {
    /// The duration in seconds.
    pub duration: i32,
    /// The performer.
    pub performer: Option<String>,
    /// The title.
    pub title: Option<String>,
    /// The media type.
    pub mime_type: Option<String>,
    /// The file size.
    pub file_size: Option<i32>,
}

/// A general file.
#[derive(Debug, Default)]
pub struct Document {
    /// The file name.
    pub file_name: Option<String>,
    /// The media type.
    pub mime_type: Option<String>,
    /// The file size.
    pub file_size: Option<i32>,
}

/// One size of a photo.
#[derive(Debug, Default)]
pub struct PhotoSize {
    pub width: i32,
    pub height: i32,
    /// The file size.
    pub file_size: Option<i32>,
}

/// A sticker.
#[derive(Debug, Default)]
pub struct Sticker {
    /// Whether the sticker is animated.
    pub is_animated: bool,
    /// The emoji of the sticker.
    pub emoji: Option<String>,
    /// The name of the set that the sticker belongs to.
    pub set_name: Option<String>,
}

/// A video file.
#[derive(Debug, Default)]
pub struct Video {
    /// The duration in seconds.
    pub duration: i32,
    /// The media type.
    pub mime_type: Option<String>,
    /// The file size.
    pub file_size: Option<i32>,
}

/// A video message.
#[derive(Debug, Default)]
pub struct VideoNote {
    /// The duration in seconds.
    pub duration: i32,
    /// The file size.
    pub file_size: Option<i32>,
}

/// A voice note.
#[derive(Debug, Default)]
pub struct Voice {
    /// The duration in seconds.
    pub duration: i32,
    /// The media type.
    pub mime_type: Option<String>,
    /// The file size.
    pub file_size: Option<i32>,
}

/// An animated emoji that shows a random value.
#[derive(Debug, Default)]
pub struct Dice {
    /// The emoji that the animation is based on.
    pub emoji: String,
}

/// A poll.
#[derive(Debug, Default)]
pub struct Poll {
    /// The type of the poll: `regular` or `quiz`.
    pub type_: String,
}

/// A venue.
#[derive(Debug, Default)]
pub struct Venue {
    pub location: Location,
    pub title: String,
    pub address: String,
}

/// A point on the map, in whole degrees.
///
/// Rules compare coordinates with whole numbers, so a coordinate is held as
/// its whole part: the part after the point is cut off.
#[derive(Debug, Default)]
pub struct Location {
    pub longitude: i64,
    pub latitude: i64,
}

impl User {
    /// The full name: the first name, then a space and the last name where
    /// there is one.
    pub open spec fn spec_full_name(&self) -> Seq<char> {
        match self.last_name {
            Some(last_name) => self.first_name@ + seq![' '] + last_name@,
            None => self.first_name@,
        }
    }

    /// The full name: the first name, then a space and the last name where
    /// there is one.
    pub fn full_name(&self) -> (r: String)
        ensures
            r@ == self.spec_full_name(),
    {
        let mut name = self.first_name.clone();
        if let Some(last_name) = &self.last_name {
            proof {
                reveal_strlit(" ");
                assert(" "@ =~= seq![' ']);
            }
            name.append(" ");
            name.append(last_name.as_str());
        }
        name
    }
}

} // verus!
