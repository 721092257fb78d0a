use aero::components::Room;
use aero::models::{ID, Room as RoomModel, RoomMe};
use aero::state::IdMap;

fn room(id: &str, name: &str) -> RoomModel {
    RoomModel {
        id: ID::new(id.to_string()),
        name: name.to_string(),
        description: String::new(),
        owner_id: ID::new("u1".to_string()),
        room_type: 0,
        me: RoomMe { permission_level: 0 },
        last_message: None,
    }
}

#[test]
fn id_map_insert_get_overwrite_remove() {
    let mut m: IdMap<RoomModel> = IdMap::empty();
    assert_eq!(m.len(), 0);
    assert!(m.get(&ID::new("r1".to_string())).is_none());
    m.insert(ID::new("r1".to_string()), room("r1", "one"));
    m.insert(ID::new("r2".to_string()), room("r2", "two"));
    assert_eq!(m.len(), 2);
    m.insert(ID::new("r1".to_string()), room("r1", "one again"));
    assert_eq!(m.len(), 2);
    assert_eq!(m.get(&ID::new("r1".to_string())).unwrap().name, "one again");
    let removed = m.remove_entry(&ID::new("r1".to_string())).unwrap();
    assert_eq!(removed.1.name, "one again");
    assert_eq!(m.len(), 1);
    assert!(m.get(&ID::new("r1".to_string())).is_none());
    assert!(m.remove_entry(&ID::new("r1".to_string())).is_none());
}

#[test]
fn id_map_merge_prefers_incoming_entries() {
    let mut base: IdMap<RoomModel> = IdMap::empty();
    base.insert(ID::new("r1".to_string()), room("r1", "old"));
    base.insert(ID::new("r2".to_string()), room("r2", "kept"));
    let mut incoming: IdMap<RoomModel> = IdMap::empty();
    incoming.insert(ID::new("r1".to_string()), room("r1", "new"));
    incoming.insert(ID::new("r3".to_string()), room("r3", "added"));
    base.merge_from(incoming);
    assert_eq!(base.len(), 3);
    assert_eq!(base.get(&ID::new("r1".to_string())).unwrap().name, "new");
    assert_eq!(base.get(&ID::new("r2".to_string())).unwrap().name, "kept");
    assert_eq!(base.get(&ID::new("r3".to_string())).unwrap().name, "added");
}

#[test]
fn id_map_keys_lists_every_entry() {
    let mut m: IdMap<RoomModel> = IdMap::empty();
    m.insert(ID::new("r1".to_string()), room("r1", "one"));
    m.insert(ID::new("r2".to_string()), room("r2", "two"));
    let keys = m.keys();
    assert_eq!(keys.len(), 2);
    assert!(keys.contains(&ID::new("r1".to_string())));
    assert!(keys.contains(&ID::new("r2".to_string())));
}

#[test]
fn room_component_reads_the_stored_room() {
    let mut rooms: IdMap<RoomModel> = IdMap::empty();
    rooms.insert(ID::new("r1".to_string()), room("r1", "General"));
    let shown = Room(&rooms, &ID::new("r1".to_string())).unwrap();
    assert_eq!(shown.name, "General");
    assert_eq!(shown.id, ID::new("r1".to_string()));
    assert!(Room(&rooms, &ID::new("zzz".to_string())).is_none());
}

#[test]
fn id_text_round_trips() {
    let id = ID::new("room-7".to_string());
    assert_eq!(id.text().as_str(), "room-7");
}
