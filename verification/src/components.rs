//! Read access for the rendering layer: one component shows one room.

use vstd::prelude::*;
use crate::models::{self, ID};
use crate::state::RoomsState;

verus! {

/// The room a room component renders: the entry of the rooms mapping
/// under `room_id`, if the session knows that room.
#[allow(non_snake_case)]
pub fn Room<'a>(rooms: &'a RoomsState, room_id: &ID) -> (r: Option<&'a models::Room>)
    ensures
        match r {
            Some(room) => rooms@.contains_key(room_id@) && room@ == rooms@[room_id@],
            None => !rooms@.contains_key(room_id@),
        },
{
    rooms.get(room_id)
}

} // verus!
