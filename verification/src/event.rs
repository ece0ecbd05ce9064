//! The events of a sync response, as far as routing reads them.

use vstd::prelude::*;
use vstd::string::*;

verus! {

/// The identifier of a room.
#[derive(Debug, PartialEq, Eq)]
pub struct RoomId(pub String);

impl Clone for RoomId {
    fn clone(&self) -> (copy: RoomId)
        ensures
            copy == *self,
    {
        RoomId(self.0.clone())
    }
}

/// The type of an event, by its name in the protocol (`m.room.message`).
/// It is the key under which handlers are registered.
#[derive(Debug, PartialEq, Eq)]
pub struct EventType(pub String);

impl Clone for EventType {
    fn clone(&self) -> (copy: EventType)
        ensures
            copy == *self,
    {
        EventType(self.0.clone())
    }
}

impl View for EventType {
    type V = Seq<char>;

    open spec fn view(&self) -> Seq<char> {
        self.0@
    }
}

impl EventType {
    /// The type of a message sent to a room.
    pub fn room_message() -> (ty: EventType)
        ensures
            ty@ == "m.room.message"@,
    {
        EventType(String::from_str("m.room.message"))
    }

    /// The type of a change of a user's membership in a room.
    pub fn room_member() -> (ty: EventType)
        ensures
            ty@ == "m.room.member"@,
    {
        EventType(String::from_str("m.room.member"))
    }

}

/// The content of a plain-text message.
#[derive(Debug, PartialEq, Eq)]
pub struct TextMessageEventContent {
    /// The text of the message.
    pub body: String,
}

impl Clone for TextMessageEventContent {
    fn clone(&self) -> (copy: TextMessageEventContent)
        ensures
            copy == *self,
    {
        TextMessageEventContent { body: self.body.clone() }
    }
}

/// What a room message holds.
#[derive(Debug, PartialEq, Eq)]
pub enum MessageEventContent {
    /// A plain-text message.
    Text(TextMessageEventContent),
    /// A message of another kind (an image, a notice, ...), with the name of its kind.
    Other(String),
}

impl Clone for MessageEventContent {
    fn clone(&self) -> (copy: MessageEventContent)
        ensures
            copy == *self,
    {
        match self {
            MessageEventContent::Text(text) => MessageEventContent::Text(text.clone()),
            MessageEventContent::Other(name) => MessageEventContent::Other(name.clone()),
        }
    }
}

/// A message sent to a room.
#[derive(Debug, PartialEq, Eq)]
pub struct MessageEvent {
    /// What the message holds.
    pub content: MessageEventContent,
    /// The identifier of the event.
    pub event_id: String,
    /// The user who sent it.
    pub sender: String,
}

impl Clone for MessageEvent {
    fn clone(&self) -> (copy: MessageEvent)
        ensures
            copy == *self,
    {
        MessageEvent {
            content: self.content.clone(),
            event_id: self.event_id.clone(),
            sender: self.sender.clone(),
        }
    }
}

/// An event of a room's timeline.
#[derive(Debug, Clone, PartialEq, Eq)]
pub enum Event {
    /// A message sent to the room.
    RoomMessage(MessageEvent),
    /// An event of another type.
    Other(EventType),
}

impl Event {
    /// The name of the event's type.
    pub open spec fn kind(&self) -> Seq<char> {
        match self {
            Event::RoomMessage(_) => "m.room.message"@,
            Event::Other(ty) => ty@,
        }
    }

    /// The type of the event.
    pub fn event_type(&self) -> (ty: EventType)
        ensures
            ty@ == self.kind(),
    {
        match self {
            Event::RoomMessage(_) => EventType::room_message(),
            Event::Other(ty) => ty.clone(),
        }
    }
}

/// A membership event as an invite carries it.
#[derive(Debug, PartialEq, Eq)]
pub struct StrippedRoomMember {
    /// The event's type.
    pub event_type: EventType,
    /// The user who sent it.
    pub sender: String,
    /// The user whose membership it changes.
    pub state_key: String,
}

impl Clone for StrippedRoomMember {
    fn clone(&self) -> (copy: StrippedRoomMember)
        ensures
            copy == *self,
    {
        StrippedRoomMember {
            event_type: self.event_type.clone(),
            sender: self.sender.clone(),
            state_key: self.state_key.clone(),
        }
    }
}

/// A state event as an invite carries it.
#[derive(Debug, Clone, PartialEq, Eq)]
pub enum StrippedState {
    /// A change of a user's membership.
    RoomMember(StrippedRoomMember),
    /// A state event of another type.
    Other(EventType),
}

impl StrippedState {
    /// The name of the event's type.
    pub open spec fn kind(&self) -> Seq<char> {
        match self {
            StrippedState::RoomMember(member) => member.event_type@,
            StrippedState::Other(ty) => ty@,
        }
    }

    /// The type of the event.
    pub fn event_type(&self) -> (ty: EventType)
        ensures
            ty@ == self.kind(),
    {
        match self {
            StrippedState::RoomMember(member) => member.event_type.clone(),
            StrippedState::Other(ty) => ty.clone(),
        }
    }
}

} // verus!
