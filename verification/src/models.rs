//! Data model of the synchronization core: identifiers, users, rooms,
//! messages, and the frames exchanged over the realtime connection.
//!
//! Each executable type has a mathematical view (`@`): identifiers are
//! sequences of characters, aggregates are ghost records over those
//! sequences. Contracts throughout the crate speak of these views.

use vstd::prelude::*;

verus! {

/// A server-assigned identifier. Identifiers are opaque strings; the
/// client never mutates one.
#[derive(Debug)]
pub struct ID(String);

impl View for ID {
    type V = Seq<char>;

    closed spec fn view(&self) -> Seq<char> {
        self.0@
    }
}

impl ID {
    pub fn new(text: String) -> (id: ID)
        ensures
            id@ == text@,
    {
        ID(text)
    }

    /// The identifier's text.
    pub fn text(&self) -> (t: &String)
        ensures
            t@ == self@,
    {
        &self.0
    }
}

impl Clone for ID {
    fn clone(&self) -> (r: Self)
        ensures
            r@ == self@,
    {
        ID(self.0.clone())
    }
}

impl PartialEq for ID {
    fn eq(&self, other: &Self) -> (r: bool) {
        self.0 == other.0
    }
}

impl vstd::std_specs::cmp::PartialEqSpecImpl for ID {
    open spec fn obeys_eq_spec() -> bool {
        true
    }

    open spec fn eq_spec(&self, other: &Self) -> bool {
        self@ == other@
    }
}

/// The identity of an account, fetched once per session and replaced
/// wholesale, never field-mutated.
#[derive(Debug, Clone, PartialEq)]
pub struct User {
    pub id: ID,
    pub username: Option<String>,
    pub name: String,
}

/// Mathematical view of a [`User`].
#[verifier::ext_equal]
pub struct UserV {
    pub id: Seq<char>,
    pub username: Option<Seq<char>>,
    pub name: Seq<char>,
}

impl View for User {
    type V = UserV;

    open spec fn view(&self) -> UserV {
        UserV {
            id: self.id@,
            username: match self.username {
                Some(u) => Some(u@),
                None => None,
            },
            name: self.name@,
        }
    }
}

/// The kind of a message. The protocol currently defines one kind.
#[derive(Debug, Clone, Copy, PartialEq, Eq, Structural)]
pub enum MessageType {
    Standard,
}

/// One chat message, keyed by `id` within the room named by `room_id`.
#[derive(Debug, Clone, PartialEq)]
pub struct Message {
    pub id: ID,
    pub content: String,
    pub room_id: ID,
    pub author: User,
    pub message_type: MessageType,
}

/// Mathematical view of a [`Message`].
#[verifier::ext_equal]
pub struct MessageV {
    pub id: Seq<char>,
    pub content: Seq<char>,
    pub room_id: Seq<char>,
    pub author: UserV,
    pub message_type: MessageType,
}

impl View for Message {
    type V = MessageV;

    open spec fn view(&self) -> MessageV {
        MessageV {
            id: self.id@,
            content: self.content@,
            room_id: self.room_id@,
            author: self.author@,
            message_type: self.message_type,
        }
    }
}

/// The caller's own membership metadata within a room.
#[derive(Debug, Clone, Copy, PartialEq, Eq, Structural)]
pub struct RoomMe {
    pub permission_level: u32,
}

/// One room, keyed by `id`.
#[derive(Debug, Clone, PartialEq)]
pub struct Room {
    pub id: ID,
    pub name: String,
    pub description: String,
    pub owner_id: ID,
    pub room_type: u8,
    pub me: RoomMe,
    pub last_message: Option<Message>,
}

/// Mathematical view of a [`Room`].
#[verifier::ext_equal]
pub struct RoomV {
    pub id: Seq<char>,
    pub name: Seq<char>,
    pub description: Seq<char>,
    pub owner_id: Seq<char>,
    pub room_type: u8,
    pub me: RoomMe,
    pub last_message: Option<MessageV>,
}

impl View for Room {
    type V = RoomV;

    open spec fn view(&self) -> RoomV {
        RoomV {
            id: self.id@,
            name: self.name@,
            description: self.description@,
            owner_id: self.owner_id@,
            room_type: self.room_type,
            me: self.me,
            last_message: match self.last_message {
                Some(m) => Some(m@),
                None => None,
            },
        }
    }
}

/// Payload of the initial hello frame: the heartbeat interval the
/// service suggests. Informational in this core; the heartbeat cadence
/// is a fixed constant.
#[derive(Debug, Clone, Copy, PartialEq, Eq, Structural)]
pub struct WsHello {
    pub heartbeat_interval: u64,
}

/// A dispatched realtime event carrying new state.
#[derive(Debug, Clone, PartialEq)]
pub enum WsDispatch {
    MessageCreate { message: Message },
    RoomJoin { room: Room },
}

/// Mathematical view of a [`WsDispatch`].
#[verifier::ext_equal]
pub enum WsDispatchV {
    MessageCreate { message: MessageV },
    RoomJoin { room: RoomV },
}

impl View for WsDispatch {
    type V = WsDispatchV;

    open spec fn view(&self) -> WsDispatchV {
        match self {
            WsDispatch::MessageCreate { message } => WsDispatchV::MessageCreate { message: message@ },
            WsDispatch::RoomJoin { room } => WsDispatchV::RoomJoin { room: room@ },
        }
    }
}

/// An inbound frame, decoded.
#[derive(Debug, Clone, PartialEq)]
pub enum WsIncomingMessage {
    WsDispatch(WsDispatch),
    HeartbeatAck,
    Hello { data: WsHello },
}

/// Mathematical view of a [`WsIncomingMessage`].
#[verifier::ext_equal]
pub enum WsIncomingV {
    WsDispatch(WsDispatchV),
    HeartbeatAck,
    Hello { data: WsHello },
}

impl View for WsIncomingMessage {
    type V = WsIncomingV;

    open spec fn view(&self) -> WsIncomingV {
        match self {
            WsIncomingMessage::WsDispatch(d) => WsIncomingV::WsDispatch(d@),
            WsIncomingMessage::HeartbeatAck => WsIncomingV::HeartbeatAck,
            WsIncomingMessage::Hello { data } => WsIncomingV::Hello { data: *data },
        }
    }
}

/// An outbound frame, to be encoded and sent over the connection.
#[derive(Debug, Clone, PartialEq)]
pub enum WsOutgoingMessage {
    Heartbeat,
    Identify { token: String },
}

/// Mathematical view of a [`WsOutgoingMessage`].
#[verifier::ext_equal]
pub enum WsOutgoingV {
    Heartbeat,
    Identify { token: Seq<char> },
}

impl View for WsOutgoingMessage {
    type V = WsOutgoingV;

    open spec fn view(&self) -> WsOutgoingV {
        match self {
            WsOutgoingMessage::Heartbeat => WsOutgoingV::Heartbeat,
            WsOutgoingMessage::Identify { token } => WsOutgoingV::Identify { token: token@ },
        }
    }
}

} // verus!
