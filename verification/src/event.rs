//! The events of a room, as far as the bot reads them.

use vstd::prelude::*;

verus! {

/// How a message refers to an earlier event.
#[derive(Clone, Debug, PartialEq, Eq)]
pub enum Relation {
    /// The message stands alone.
    Unrelated,
    /// The message answers the event with this identifier.
    Reply { event_id: String },
    /// The message belongs to the thread that starts at `root`. Where
    /// `in_reply_to` is set it names the event that the message answers;
    /// with `is_falling_back` that event was not chosen by the sender: it
    /// is the latest message of the thread.
    Thread { root: String, in_reply_to: Option<String>, is_falling_back: bool },
    /// Any other relation, such as a replacement or an annotation.
    Other,
}

/// The kinds of message that the bot tells apart.
#[derive(Clone, Copy, Debug, PartialEq, Eq, Structural)]
pub enum MessageKind {
    /// Plain or formatted text.
    Text,
    /// A notice, an emote, a file and so on.
    Other,
}

/// The membership of the bot in a room.
#[derive(Clone, Copy, Debug, PartialEq, Eq, Structural)]
pub enum RoomState {
    Joined,
    Left,
    Invited,
    Knocked,
    Banned,
}

/// A message that has just arrived in a room.
#[derive(Clone, Debug, PartialEq, Eq)]
pub struct IncomingMessage {
    pub event_id: String,
    pub room_id: String,
    pub sender: String,
    pub kind: MessageKind,
    pub body: String,
    pub relation: Relation,
}

/// What an event of the timeline holds.
#[derive(Clone, Debug, PartialEq, Eq)]
pub enum TimelineContent {
    /// A message as its sender wrote it.
    Message { sender: String, body: String },
    /// A message that replaces the text of an earlier one.
    Edit,
    /// A message whose content was removed.
    Redacted,
    /// Any other event of the conversation, such as a reaction.
    OtherMessageLike,
    /// A change of the room's state.
    State,
}

/// An event of a room's timeline.
#[derive(Clone, Debug, PartialEq, Eq)]
pub struct TimelineEvent {
    pub event_id: String,
    pub content: TimelineContent,
}

impl TimelineEvent {
    /// The event is a message as its sender wrote it: the only kind of
    /// event that a command can be applied to.
    pub open spec fn is_message(self) -> bool {
        self.content is Message
    }

    /// The text of the message, or the empty text for any other event.
    pub open spec fn body_view(self) -> Seq<char> {
        match self.content {
            TimelineContent::Message { sender, body } => body@,
            _ => Seq::empty(),
        }
    }

    /// The text of the message, or the empty text for any other event.
    pub fn body(&self) -> (r: &str)
        ensures
            r@ == self.body_view(),
    {
        match &self.content {
            TimelineContent::Message { body, .. } => body.as_str(),
            _ => {
                proof {
                    reveal_strlit("");
                    assert(""@ =~= Seq::<char>::empty());
                }
                ""
            },
        }
    }

    /// Tells whether a command can be applied to the event.
    pub fn holds_message(&self) -> (r: bool)
        ensures
            r == self.is_message(),
    {
        match &self.content {
            TimelineContent::Message { .. } => true,
            _ => false,
        }
    }
}

/// The part of a room's timeline that is at hand, oldest event first.
#[derive(Clone, Debug, PartialEq, Eq)]
pub struct Timeline {
    pub events: Vec<TimelineEvent>,
}

} // verus!
