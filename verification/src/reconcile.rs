//! The event reconciler: applies each decoded inbound event to the
//! session state under last-write-wins merge rules, and reports which
//! mapping, if any, was published to observers by the application.

use vstd::prelude::*;
use crate::models::{MessageV, RoomV, WsIncomingMessage, WsIncomingV, WsDispatch, WsDispatchV};
use crate::state::SessionState;
use crate::state::{messages_coherent, rooms_coherent};
use crate::codec::{decode_frame, spec_decode_frame, ProtocolError};

verus! {

/// Which mapping one event application published to observers.
/// Every successful application publishes at most one snapshot.
#[derive(Debug, Clone, Copy, PartialEq, Eq, Structural)]
pub enum Publication {
    Rooms,
    Messages,
    NoChange,
}

/// The mapping that applying `e` publishes.
pub open spec fn publication_of(e: WsIncomingV) -> Publication {
    match e {
        WsIncomingV::WsDispatch(WsDispatchV::MessageCreate { .. }) => Publication::Messages,
        WsIncomingV::WsDispatch(WsDispatchV::RoomJoin { .. }) => Publication::Rooms,
        WsIncomingV::HeartbeatAck => Publication::NoChange,
        WsIncomingV::Hello { .. } => Publication::NoChange,
    }
}

/// The rooms mapping after applying one event: a room join inserts the
/// room under its id, last write wins; other events leave rooms alone.
pub open spec fn rooms_after(rooms: Map<Seq<char>, RoomV>, e: WsIncomingV) -> Map<Seq<char>, RoomV> {
    match e {
        WsIncomingV::WsDispatch(WsDispatchV::RoomJoin { room }) => rooms.insert(room.id, room),
        _ => rooms,
    }
}

/// The messages store after applying one event: a message create
/// inserts the message under its room id and message id, creating the
/// inner mapping on first insert; other events leave messages alone.
pub open spec fn messages_after(
    msgs: Map<Seq<char>, Map<Seq<char>, MessageV>>,
    e: WsIncomingV,
) -> Map<Seq<char>, Map<Seq<char>, MessageV>> {
    match e {
        WsIncomingV::WsDispatch(WsDispatchV::MessageCreate { message }) => msgs.insert(
            message.room_id,
            (if msgs.contains_key(message.room_id) {
                msgs[message.room_id]
            } else {
                Map::empty()
            }).insert(message.id, message),
        ),
        _ => msgs,
    }
}

/// Applies one decoded inbound event to the session state.
///
/// Message creates and room joins merge into their mapping, last write
/// wins by id; heartbeat acknowledgements and hellos leave the state
/// byte-for-byte unchanged. The result says which mapping was published.
pub fn apply(state: &mut SessionState, event: WsIncomingMessage) -> (p: Publication)
    ensures
        final(state).rooms@ == rooms_after(old(state).rooms@, event@),
        final(state).messages@ == messages_after(old(state).messages@, event@),
        final(state).auth_token == old(state).auth_token,
        final(state).current_user == old(state).current_user,
        final(state).transport == old(state).transport,
        p == publication_of(event@),
        old(state).wf() ==> final(state).wf(),
        event@ is HeartbeatAck ==> *final(state) == *old(state),
        event@ is Hello ==> *final(state) == *old(state),
{
    match event {
        WsIncomingMessage::WsDispatch(WsDispatch::MessageCreate { message }) => {
            state.messages.insert_message(message);
            Publication::Messages
        }
        WsIncomingMessage::WsDispatch(WsDispatch::RoomJoin { room }) => {
            let key = room.id.clone();
            let ghost rv = room@;
            state.rooms.insert(key, room);
            proof {
                if old(state).wf() {
                    assert(rooms_coherent(state.rooms@));
                }
            }
            Publication::Rooms
        }
        WsIncomingMessage::HeartbeatAck => Publication::NoChange,
        WsIncomingMessage::Hello { data: _ } => Publication::NoChange,
    }
}

/// Decodes one inbound frame and applies it: the steady-state step of
/// the read loop. A frame that does not decode is a protocol error;
/// it leaves the session state byte-for-byte unchanged and the read
/// loop treats it as fatal.
pub fn apply_frame(state: &mut SessionState, raw: &str) -> (r: Result<Publication, ProtocolError>)
    ensures
        match spec_decode_frame(raw@) {
            Ok(ev) => r == Ok::<Publication, ProtocolError>(publication_of(ev))
                && final(state).rooms@ == rooms_after(old(state).rooms@, ev)
                && final(state).messages@ == messages_after(old(state).messages@, ev)
                && final(state).auth_token == old(state).auth_token
                && final(state).current_user == old(state).current_user
                && final(state).transport == old(state).transport
                && (old(state).wf() ==> final(state).wf()),
            Err(e) => r == Err::<Publication, ProtocolError>(e) && *final(state) == *old(state),
        },
{
    match decode_frame(raw) {
        Ok(ev) => Ok(apply(state, ev)),
        Err(e) => Err(e),
    }
}

/// The rooms mapping after applying a whole inbound sequence, in order.
pub open spec fn rooms_after_all(rooms: Map<Seq<char>, RoomV>, es: Seq<WsIncomingV>) -> Map<Seq<char>, RoomV>
    decreases es.len(),
{
    if es.len() == 0 {
        rooms
    } else {
        rooms_after(rooms_after_all(rooms, es.drop_last()), es.last())
    }
}

/// The messages store after applying a whole inbound sequence, in order.
pub open spec fn messages_after_all(
    msgs: Map<Seq<char>, Map<Seq<char>, MessageV>>,
    es: Seq<WsIncomingV>,
) -> Map<Seq<char>, Map<Seq<char>, MessageV>>
    decreases es.len(),
{
    if es.len() == 0 {
        msgs
    } else {
        messages_after(messages_after_all(msgs, es.drop_last()), es.last())
    }
}

/// The most recently applied room join for id `k` in `es`, if any.
pub open spec fn last_join(es: Seq<WsIncomingV>, k: Seq<char>) -> Option<RoomV>
    decreases es.len(),
{
    if es.len() == 0 {
        None
    } else if es.last() matches WsIncomingV::WsDispatch(WsDispatchV::RoomJoin { room }) && room.id == k {
        match es.last() {
            WsIncomingV::WsDispatch(WsDispatchV::RoomJoin { room }) => Some(room),
            _ => None,
        }
    } else {
        last_join(es.drop_last(), k)
    }
}

/// The most recently applied message create for (room `rk`, message
/// `mk`) in `es`, if any.
pub open spec fn last_create(es: Seq<WsIncomingV>, rk: Seq<char>, mk: Seq<char>) -> Option<MessageV>
    decreases es.len(),
{
    if es.len() == 0 {
        None
    } else if es.last() matches WsIncomingV::WsDispatch(WsDispatchV::MessageCreate { message })
        && message.room_id == rk && message.id == mk {
        match es.last() {
            WsIncomingV::WsDispatch(WsDispatchV::MessageCreate { message }) => Some(message),
            _ => None,
        }
    } else {
        last_create(es.drop_last(), rk, mk)
    }
}

/// A pair (room id, message id) has an entry in the store.
pub open spec fn pair_present(
    msgs: Map<Seq<char>, Map<Seq<char>, MessageV>>,
    rk: Seq<char>,
    mk: Seq<char>,
) -> bool {
    msgs.contains_key(rk) && msgs[rk].contains_key(mk)
}

/// Last write wins in the rooms mapping: after applying any inbound
/// sequence, each id holds the most recently joined room with that id,
/// and ids never mentioned keep their prior entry, untouched.
pub proof fn lemma_rooms_last_write_wins(rooms: Map<Seq<char>, RoomV>, es: Seq<WsIncomingV>, k: Seq<char>)
    ensures
        match last_join(es, k) {
            Some(r) => rooms_after_all(rooms, es).contains_key(k) && rooms_after_all(rooms, es)[k] == r,
            None => rooms_after_all(rooms, es).contains_key(k) == rooms.contains_key(k)
                && (rooms.contains_key(k) ==> rooms_after_all(rooms, es)[k] == rooms[k]),
        },
    decreases es.len(),
{
    if es.len() > 0 {
        lemma_rooms_last_write_wins(rooms, es.drop_last(), k);
    }
}

/// Last write wins in the messages store: after applying any inbound
/// sequence, each (room id, message id) pair holds the most recently
/// created message with those ids, and pairs never mentioned keep their
/// prior entry, untouched. With distinct ids this leaves exactly one
/// entry per pair.
pub proof fn lemma_messages_last_write_wins(
    msgs: Map<Seq<char>, Map<Seq<char>, MessageV>>,
    es: Seq<WsIncomingV>,
    rk: Seq<char>,
    mk: Seq<char>,
)
    ensures
        match last_create(es, rk, mk) {
            Some(m) => pair_present(messages_after_all(msgs, es), rk, mk)
                && messages_after_all(msgs, es)[rk][mk] == m,
            None => pair_present(messages_after_all(msgs, es), rk, mk) == pair_present(msgs, rk, mk)
                && (pair_present(msgs, rk, mk) ==> messages_after_all(msgs, es)[rk][mk] == msgs[rk][mk]),
        },
    decreases es.len(),
{
    if es.len() > 0 {
        lemma_messages_last_write_wins(msgs, es.drop_last(), rk, mk);
    }
}

/// Applying the same event twice yields the same mappings as applying
/// it once; in particular a repeated message create is idempotent.
pub proof fn lemma_apply_idempotent(
    rooms: Map<Seq<char>, RoomV>,
    msgs: Map<Seq<char>, Map<Seq<char>, MessageV>>,
    e: WsIncomingV,
)
    ensures
        rooms_after(rooms_after(rooms, e), e) == rooms_after(rooms, e),
        messages_after(messages_after(msgs, e), e) == messages_after(msgs, e),
{
    match e {
        WsIncomingV::WsDispatch(WsDispatchV::RoomJoin { room }) => {
            assert(rooms_after(rooms_after(rooms, e), e) =~= rooms_after(rooms, e));
        }
        WsIncomingV::WsDispatch(WsDispatchV::MessageCreate { message }) => {
            let m1 = messages_after(msgs, e);
            assert(m1[message.room_id] == (if msgs.contains_key(message.room_id) {
                msgs[message.room_id]
            } else {
                Map::empty()
            }).insert(message.id, message));
            assert(m1[message.room_id].insert(message.id, message) =~= m1[message.room_id]);
            assert(messages_after(m1, e) =~= m1);
        }
        _ => {}
    }
}

} // verus!
