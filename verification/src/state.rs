//! The session state store: the authoritative client-visible state.
//!
//! Rooms and messages are held in association maps keyed by identifier.
//! The view of a map is a `Map<Seq<char>, _>` from key text to the value's
//! view; well-formedness says the stored keys are distinct, so each key
//! owns exactly one entry.

use vstd::prelude::*;
use crate::models::{ID, User, Room, RoomV, Message, MessageV};

verus! {

/// The abstract contents of a key/value sequence: later pairs win.
pub closed spec fn map_of<V: View>(s: Seq<(ID, V)>) -> Map<Seq<char>, V::V>
    decreases s.len(),
{
    if s.len() == 0 {
        Map::empty()
    } else {
        map_of(s.drop_last()).insert(s.last().0@, s.last().1@)
    }
}

/// The stored keys are pairwise distinct.
pub open spec fn distinct_keys<V>(s: Seq<(ID, V)>) -> bool {
    forall|i: int, j: int| 0 <= i < j < s.len() ==> s[i].0@ != s[j].0@
}

proof fn lemma_map_of_dom<V: View>(s: Seq<(ID, V)>, k: Seq<char>)
    ensures
        map_of(s).contains_key(k) <==> (exists|i: int| 0 <= i < s.len() && s[i].0@ == k),
    decreases s.len(),
{
    if s.len() > 0 {
        lemma_map_of_dom(s.drop_last(), k);
        if map_of(s).contains_key(k) {
            if s.last().0@ != k {
                let i = choose|i: int| 0 <= i < s.drop_last().len() && s.drop_last()[i].0@ == k;
                assert(s[i].0@ == k);
            } else {
                assert(s[s.len() - 1].0@ == k);
            }
        }
        if exists|i: int| 0 <= i < s.len() && s[i].0@ == k {
            let i = choose|i: int| 0 <= i < s.len() && s[i].0@ == k;
            if i < s.len() - 1 {
                assert(s.drop_last()[i].0@ == k);
            }
        }
    }
}

proof fn lemma_map_of_get<V: View>(s: Seq<(ID, V)>, i: int)
    requires
        distinct_keys(s),
        0 <= i < s.len(),
    ensures
        map_of(s).contains_key(s[i].0@),
        map_of(s)[s[i].0@] == s[i].1@,
    decreases s.len(),
{
    if i == s.len() - 1 {
    } else {
        assert(distinct_keys(s.drop_last()));
        assert(s.drop_last()[i] == s[i]);
        lemma_map_of_get(s.drop_last(), i);
        assert(s.last().0@ != s[i].0@);
    }
}

proof fn lemma_map_of_push<V: View>(s: Seq<(ID, V)>, p: (ID, V))
    ensures
        map_of(s.push(p)) == map_of(s).insert(p.0@, p.1@),
{
    assert(s.push(p).drop_last() =~= s);
    assert(s.push(p).last() == p);
}

proof fn lemma_map_of_update<V: View>(s: Seq<(ID, V)>, i: int, p: (ID, V))
    requires
        distinct_keys(s),
        0 <= i < s.len(),
        p.0@ == s[i].0@,
    ensures
        map_of(s.update(i, p)) == map_of(s).insert(p.0@, p.1@),
        distinct_keys(s.update(i, p)),
    decreases s.len(),
{
    let t = s.update(i, p);
    if i == s.len() - 1 {
        assert(t.drop_last() =~= s.drop_last());
        assert(t.last() == p);
        assert(map_of(t) == map_of(s.drop_last()).insert(p.0@, p.1@));
        assert(map_of(s.drop_last()).insert(p.0@, p.1@) =~= map_of(s).insert(p.0@, p.1@));
    } else {
        assert(distinct_keys(s.drop_last()));
        assert(s.drop_last()[i] == s[i]);
        lemma_map_of_update(s.drop_last(), i, p);
        assert(t.drop_last() =~= s.drop_last().update(i, p));
        assert(t.last() == s.last());
        assert(s[i].0@ != s.last().0@);
        assert(map_of(t) == map_of(s.drop_last()).insert(p.0@, p.1@).insert(s.last().0@, s.last().1@));
        assert(map_of(s.drop_last()).insert(p.0@, p.1@).insert(s.last().0@, s.last().1@)
            =~= map_of(s).insert(p.0@, p.1@));
    }
}

proof fn lemma_map_of_remove<V: View>(s: Seq<(ID, V)>, i: int)
    requires
        distinct_keys(s),
        0 <= i < s.len(),
    ensures
        map_of(s.remove(i)) == map_of(s).remove(s[i].0@),
        distinct_keys(s.remove(i)),
    decreases s.len(),
{
    let k = s[i].0@;
    let t = s.remove(i);
    assert(distinct_keys(t));
    if i == s.len() - 1 {
        assert(t =~= s.drop_last());
        lemma_map_of_dom(s.drop_last(), k);
        assert(forall|j: int| 0 <= j < s.drop_last().len() ==> s.drop_last()[j] == s[j]);
        assert(!map_of(s.drop_last()).contains_key(k));
        assert(map_of(s).remove(k) =~= map_of(s.drop_last()));
    } else {
        assert(distinct_keys(s.drop_last()));
        assert(s.drop_last()[i] == s[i]);
        lemma_map_of_remove(s.drop_last(), i);
        assert(t.drop_last() =~= s.drop_last().remove(i));
        assert(t.last() == s.last());
        assert(k != s.last().0@);
        assert(map_of(t) == map_of(s.drop_last()).remove(k).insert(s.last().0@, s.last().1@));
        assert(map_of(s.drop_last()).remove(k).insert(s.last().0@, s.last().1@)
            =~= map_of(s).remove(k));
    }
}

/// An association map from identifiers to values, the store behind the
/// rooms and messages mappings. Its view is the abstract mapping from
/// key text to the value's view; insertion is last-write-wins by key.
#[derive(Debug)]
pub struct IdMap<V> {
    pairs: Vec<(ID, V)>,
}

impl<V: View> View for IdMap<V> {
    type V = Map<Seq<char>, V::V>;

    closed spec fn view(&self) -> Map<Seq<char>, V::V> {
        map_of(self.pairs@)
    }
}

impl<V> IdMap<V> {
    /// Keys are pairwise distinct, so each key owns exactly one entry.
    #[verifier::type_invariant]
    closed spec fn keys_distinct(&self) -> bool {
        distinct_keys(self.pairs@)
    }
}

impl<V: View> IdMap<V> {

    /// The number of entries.
    pub closed spec fn spec_len(&self) -> nat {
        self.pairs@.len()
    }

    pub fn empty() -> (m: Self)
        ensures
            m@ == Map::<Seq<char>, V::V>::empty(),
            m.spec_len() == 0,
    {
        IdMap { pairs: Vec::new() }
    }

    pub fn len(&self) -> (n: usize)
        ensures
            n == self.spec_len(),
    {
        self.pairs.len()
    }

    /// Looks a value up by key.
    pub fn get(&self, k: &ID) -> (r: Option<&V>)
        ensures
            match r {
                Some(v) => self@.contains_key(k@) && v@ == self@[k@],
                None => !self@.contains_key(k@),
            },
    {
        proof {
            use_type_invariant(&*self);
        }
        let n = self.pairs.len();
        let mut i: usize = 0;
        while i < n
            invariant
                i <= n,
                n == self.pairs@.len(),
                distinct_keys(self.pairs@),
                forall|j: int| 0 <= j < i ==> self.pairs@[j].0@ != k@,
            decreases n - i,
        {
            if &self.pairs[i].0 == k {
                proof {
                    lemma_map_of_get(self.pairs@, i as int);
                }
                return Some(&self.pairs[i].1);
            }
            i += 1;
        }
        proof {
            lemma_map_of_dom(self.pairs@, k@);
        }
        None
    }

    /// Inserts or overwrites the entry at `k`: last write wins.
    #[verifier::loop_isolation(false)]
    pub fn insert(&mut self, k: ID, v: V)
        ensures
            final(self)@ == old(self)@.insert(k@, v@),
            final(self).spec_len() == if old(self)@.contains_key(k@) {
                old(self).spec_len()
            } else {
                old(self).spec_len() + 1
            },
    {
        proof {
            use_type_invariant(&*self);
        }
        let ghost s0 = old(self).pairs@;
        let n = self.pairs.len();
        let mut found: Option<usize> = None;
        let mut i: usize = 0;
        while i < n
            invariant
                i <= n,
                n == self.pairs@.len(),
                self.pairs@ == s0,
                distinct_keys(s0),
                match found {
                    Some(fi) => fi < i && self.pairs@[fi as int].0@ == k@,
                    None => forall|j: int| 0 <= j < i ==> self.pairs@[j].0@ != k@,
                },
            decreases n - i,
        {
            if found.is_none() && self.pairs[i].0 == k {
                found = Some(i);
            }
            i += 1;
        }
        let pair = (k, v);
        let ghost gp = pair;
        let mut ps: Vec<(ID, V)> = Vec::new();
        std::mem::swap(&mut ps, &mut self.pairs);
        match found {
            Some(fi) => {
                proof {
                    lemma_map_of_get(s0, fi as int);
                    lemma_map_of_update(s0, fi as int, gp);
                    lemma_map_of_dom(s0, gp.0@);
                }
                ps.set(fi, pair);
            }
            None => {
                proof {
                    lemma_map_of_push(s0, gp);
                    lemma_map_of_dom(s0, gp.0@);
                    assert(distinct_keys(s0.push(gp)));
                }
                ps.push(pair);
            }
        }
        self.pairs = ps;
    }

    /// Removes and returns the entry at `k`, if any.
    #[verifier::loop_isolation(false)]
    pub fn remove_entry(&mut self, k: &ID) -> (r: Option<(ID, V)>)
        ensures
            final(self)@ == old(self)@.remove(k@),
            match r {
                Some(p) => old(self)@.contains_key(k@) && p.0@ == k@ && p.1@ == old(self)@[k@],
                None => !old(self)@.contains_key(k@) && final(self)@ == old(self)@,
            },
    {
        proof {
            use_type_invariant(&*self);
        }
        let ghost s0 = old(self).pairs@;
        let n = self.pairs.len();
        let mut i: usize = 0;
        while i < n
            invariant
                i <= n,
                n == self.pairs@.len(),
                self.pairs@ == s0,
                distinct_keys(s0),
                forall|j: int| 0 <= j < i ==> self.pairs@[j].0@ != k@,
            decreases n - i,
        {
            if &self.pairs[i].0 == k {
                proof {
                    lemma_map_of_get(s0, i as int);
                    lemma_map_of_remove(s0, i as int);
                }
                let mut ps: Vec<(ID, V)> = Vec::new();
                std::mem::swap(&mut ps, &mut self.pairs);
                let p = ps.remove(i);
                self.pairs = ps;
                return Some(p);
            }
            i += 1;
        }
        proof {
            lemma_map_of_dom(s0, k@);
            assert(map_of(s0).remove(k@) =~= map_of(s0));
        }
        None
    }


    /// Merges every entry of `other` into this map; entries of `other`
    /// win over entries already present.
    #[verifier::loop_isolation(false)]
    pub fn merge_from(&mut self, other: IdMap<V>)
        ensures
            final(self)@ == old(self)@.union_prefer_right(other@),
    {
        proof {
            use_type_invariant(&other);
        }
        let mut src = other;
        let mut sp: Vec<(ID, V)> = Vec::new();
        std::mem::swap(&mut sp, &mut src.pairs);
        let ghost src0 = sp@;
        while sp.len() > 0
            invariant
                distinct_keys(sp@),
                self@.union_prefer_right(map_of(sp@))
                    == old(self)@.union_prefer_right(map_of(src0)),
            decreases sp@.len(),
        {
            let ghost spre = sp@;
            let popped = sp.pop();
            match popped {
                Some(p) => {
                    let ghost gp = p;
                    proof {
                        assert(sp@ =~= spre.drop_last());
                        lemma_map_of_dom(spre.drop_last(), gp.0@);
                    }
                    let ghost before = self@;
                    self.insert(p.0, p.1);
                    proof {
                        assert(map_of(spre) == map_of(spre.drop_last()).insert(gp.0@, gp.1@));
                        assert(before.insert(gp.0@, gp.1@).union_prefer_right(map_of(sp@))
                            =~= before.union_prefer_right(map_of(spre)));
                    }
                }
                None => {}
            }
        }
        proof {
            assert(map_of(sp@) =~= Map::<Seq<char>, V::V>::empty());
            assert(self@.union_prefer_right(map_of(sp@)) =~= self@);
        }
    }

    /// The keys currently stored, one per entry.
    pub fn keys(&self) -> (ks: Vec<ID>)
        ensures
            ks@.len() == self.spec_len(),
            forall|i: int| 0 <= i < ks@.len() ==> self@.contains_key(#[trigger] ks@[i]@),
    {
        proof {
            use_type_invariant(&*self);
        }
        let n = self.pairs.len();
        let mut ks: Vec<ID> = Vec::new();
        let mut i: usize = 0;
        while i < n
            invariant
                i <= n,
                n == self.pairs@.len(),
                distinct_keys(self.pairs@),
                ks@.len() == i,
                forall|j: int| 0 <= j < ks@.len() ==> self@.contains_key(#[trigger] ks@[j]@),
            decreases n - i,
        {
            proof {
                lemma_map_of_get(self.pairs@, i as int);
            }
            ks.push(self.pairs[i].0.clone());
            i += 1;
        }
        ks
    }
}

/// The handle of one live realtime connection. At most one exists per
/// session; a new connection attempt replaces it.
#[derive(Debug, Clone)]
pub struct TransportHandle {
    pub endpoint: String,
}

impl View for TransportHandle {
    type V = Seq<char>;

    open spec fn view(&self) -> Seq<char> {
        self.endpoint@
    }
}

/// The rooms mapping: room id to room, keys unique.
pub type RoomsState = IdMap<Room>;

/// The two-level messages store: room id to (message id to message).
/// A room with no known messages simply has no outer entry; its inner
/// mapping is created on first insert.
#[derive(Debug)]
pub struct MessagesState {
    per_room: IdMap<IdMap<Message>>,
}

impl View for MessagesState {
    type V = Map<Seq<char>, Map<Seq<char>, MessageV>>;

    closed spec fn view(&self) -> Map<Seq<char>, Map<Seq<char>, MessageV>> {
        self.per_room@
    }
}

/// Every stored message sits under its own room id and message id.
pub open spec fn messages_coherent(m: Map<Seq<char>, Map<Seq<char>, MessageV>>) -> bool {
    forall|rk: Seq<char>, mk: Seq<char>|
        #![auto]
        m.contains_key(rk) && m[rk].contains_key(mk) ==> m[rk][mk].room_id == rk && m[rk][mk].id == mk
}

/// Every stored room sits under its own id.
pub open spec fn rooms_coherent(m: Map<Seq<char>, RoomV>) -> bool {
    forall|rk: Seq<char>| #![auto] m.contains_key(rk) ==> m[rk].id == rk
}

impl MessagesState {
    pub fn empty() -> (m: Self)
        ensures
            m@ == Map::<Seq<char>, Map<Seq<char>, MessageV>>::empty(),
    {
        MessagesState { per_room: IdMap::empty() }
    }

    /// The inner mapping for one room, if any message of it is known.
    pub fn room_messages(&self, room_id: &ID) -> (r: Option<&IdMap<Message>>)
        ensures
            match r {
                Some(inner) => self@.contains_key(room_id@) && inner@ == self@[room_id@],
                None => !self@.contains_key(room_id@),
            },
    {
        self.per_room.get(room_id)
    }

    /// Inserts `m` under its room id and message id, creating the inner
    /// mapping on first insert; last write wins within the room.
    pub fn insert_message(&mut self, m: Message)
        ensures
            final(self)@ == old(self)@.insert(
                m.room_id@,
                (if old(self)@.contains_key(m.room_id@) {
                    old(self)@[m.room_id@]
                } else {
                    Map::empty()
                }).insert(m.id@, m@),
            ),
            messages_coherent(old(self)@) ==> messages_coherent(final(self)@),
    {
        let removed = self.per_room.remove_entry(&m.room_id);
        let mut inner: IdMap<Message> = match removed {
            Some(p) => p.1,
            None => IdMap::empty(),
        };
        let room_key = m.room_id.clone();
        let message_key = m.id.clone();
        let ghost mv = m@;
        inner.insert(message_key, m);
        self.per_room.insert(room_key, inner);
        proof {
            let old_map = old(self)@;
            let inner0 = if old_map.contains_key(mv.room_id) {
                old_map[mv.room_id]
            } else {
                Map::<Seq<char>, MessageV>::empty()
            };
            assert(self.per_room@ =~= old_map.insert(mv.room_id, inner0.insert(mv.id, mv)));
            if messages_coherent(old_map) {
                assert(messages_coherent(self.per_room@));
            }
        }
    }
}

/// The snapshot the service returns at bootstrap: the calling account
/// and the rooms it belongs to.
#[derive(Debug)]
pub struct MeResponse {
    pub user: User,
    pub rooms: RoomsState,
}

/// The authoritative client-visible state of one session.
#[derive(Debug)]
pub struct SessionState {
    pub auth_token: Option<String>,
    pub current_user: Option<User>,
    pub transport: Option<TransportHandle>,
    pub rooms: RoomsState,
    pub messages: MessagesState,
}

impl SessionState {
    /// Rooms and messages each sit under their own identifiers.
    pub open spec fn wf(&self) -> bool {
        &&& rooms_coherent(self.rooms@)
        &&& messages_coherent(self.messages@)
    }

    /// A fresh session: nothing authenticated, nothing fetched,
    /// no connection, no rooms, no messages.
    pub fn new() -> (s: Self)
        ensures
            s.auth_token is None,
            s.current_user is None,
            s.transport is None,
            s.rooms@ == Map::<Seq<char>, RoomV>::empty(),
            s.messages@ == Map::<Seq<char>, Map<Seq<char>, MessageV>>::empty(),
            s.wf(),
    {
        SessionState {
            auth_token: None,
            current_user: None,
            transport: None,
            rooms: IdMap::empty(),
            messages: MessagesState::empty(),
        }
    }
}

} // verus!
