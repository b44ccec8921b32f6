//! The hub: which players of which room are connected, and sending them events.

use tokio::sync::mpsc::UnboundedSender;
use vstd::prelude::*;
use vstd::string::*;

use crate::game::events::ServerEvent;
use crate::game::state::PlayerId;

verus! {

#[verifier::external_type_specification]
#[verifier::external_body]
#[verifier::reject_recursive_types(T)]
pub struct ExUnboundedSender<T>(UnboundedSender<T>);

/// Calls `UnboundedSender::send`: hands the event to the channel of one
/// connection. Tokio documents that it fails only when the receiving half is
/// closed; whether it was is not known here, so nothing is said of the result.
#[verifier::external_body]
fn send_event(tx: &UnboundedSender<ServerEvent>, event: ServerEvent) -> bool {
    tx.send(event).is_ok()
}

/// A connection to a single client
pub struct Connection {
    pub player_id: PlayerId,
    pub tx: UnboundedSender<ServerEvent>,
}

/// The connections of one room
struct Room {
    id: String,
    connections: Vec<Connection>,
}

/// Hub manages all active connections grouped by room
pub struct Hub {
    rooms: Vec<Room>,
}

/// The players connected in a room, in order of connection.
pub open spec fn connection_ids(cs: Seq<Connection>) -> Seq<PlayerId> {
    cs.map_values(|c: Connection| c.player_id)
}

/// Whether a connection belongs to another player, as a predicate.
pub open spec fn other_player(player_id: PlayerId) -> spec_fn(Connection) -> bool {
    |c: Connection| c.player_id != player_id
}

/// The connections once a player (re)connects to a room with connection `c`:
/// any older connection of the player is replaced by `c`, at the end.
pub open spec fn joined(
    rooms: Map<Seq<char>, Seq<Connection>>,
    room_id: Seq<char>,
    c: Connection,
) -> Map<Seq<char>, Seq<Connection>> {
    let before = if rooms.contains_key(room_id) {
        rooms[room_id]
    } else {
        seq![]
    };
    rooms.insert(room_id, before.filter(other_player(c.player_id)).push(c))
}

/// The connections once a player leaves a room; a room left empty is dropped.
pub open spec fn left(
    rooms: Map<Seq<char>, Seq<Connection>>,
    room_id: Seq<char>,
    player_id: PlayerId,
) -> Map<Seq<char>, Seq<Connection>> {
    if rooms.contains_key(room_id) {
        let rest = rooms[room_id].filter(other_player(player_id));
        if rest.len() == 0 {
            rooms.remove(room_id)
        } else {
            rooms.insert(room_id, rest)
        }
    } else {
        rooms
    }
}

impl Hub {
    /// No room is listed twice.
    #[verifier::type_invariant]
    spec fn rooms_distinct(self) -> bool {
        distinct_rooms(self.rooms@)
    }

    /// The connections of each room, in order of connection: each a player
    /// and the sender of its channel.
    pub closed spec fn rooms(self) -> Map<Seq<char>, Seq<Connection>> {
        rooms_map(self.rooms@)
    }

    pub fn new() -> (r: Self)
        ensures
            r.rooms() == Map::<Seq<char>, Seq<Connection>>::empty(),
    {
        let r = Hub { rooms: Vec::new() };
        assert(r.rooms() =~= Map::<Seq<char>, Seq<Connection>>::empty());
        r
    }
}

impl Default for Hub {
    fn default() -> (r: Self)
        ensures
            r.rooms() == Map::<Seq<char>, Seq<Connection>>::empty(),
    {
        Self::new()
    }
}

/// No room is listed twice.
spec fn distinct_rooms(rooms: Seq<Room>) -> bool {
    forall|i: int, j: int| 0 <= i < j < rooms.len() ==> rooms[i].id@ != rooms[j].id@
}

/// The players connected in each listed room.
spec fn rooms_map(rooms: Seq<Room>) -> Map<Seq<char>, Seq<Connection>> {
    Map::new(
        |k: Seq<char>| exists|i: int| 0 <= i < rooms.len() && rooms[i].id@ == k,
        |k: Seq<char>|
            {
                let i = choose|i: int| 0 <= i < rooms.len() && rooms[i].id@ == k;
                rooms[i].connections@
            },
    )
}

/// The entry of a listed room.
proof fn lemma_rooms_map_at(rooms: Seq<Room>, i: int)
    requires
        distinct_rooms(rooms),
        0 <= i < rooms.len(),
    ensures
        rooms_map(rooms).contains_key(rooms[i].id@),
        rooms_map(rooms)[rooms[i].id@] == rooms[i].connections@,
{
    let k = rooms[i].id@;
    let c = choose|c: int| 0 <= c < rooms.len() && rooms[c].id@ == k;
    if c != i {
        if c < i {
            assert(rooms[c].id@ != rooms[i].id@);
        } else {
            assert(rooms[i].id@ != rooms[c].id@);
        }
    }
}

/// Replacing a room by one with the same id replaces its entry.
proof fn lemma_rooms_map_update(rooms: Seq<Room>, i: int, r: Room)
    requires
        distinct_rooms(rooms),
        0 <= i < rooms.len(),
        r.id@ == rooms[i].id@,
    ensures
        distinct_rooms(rooms.update(i, r)),
        rooms_map(rooms.update(i, r)) == rooms_map(rooms).insert(r.id@, r.connections@),
{
    let s = rooms.update(i, r);
    assert(distinct_rooms(s)) by {
        assert forall|a: int, b: int| 0 <= a < b < s.len() implies s[a].id@ != s[b].id@ by {
            assert(rooms[a].id@ != rooms[b].id@);
        }
    }
    let m = rooms_map(rooms).insert(r.id@, r.connections@);
    assert forall|k: Seq<char>| #[trigger] rooms_map(s).contains_key(k) <==> m.contains_key(k) by {
        if rooms_map(s).contains_key(k) {
            let c = choose|c: int| 0 <= c < s.len() && s[c].id@ == k;
            if c != i {
                lemma_rooms_map_at(rooms, c);
            }
        }
        if m.contains_key(k) && k != r.id@ {
            let c = choose|c: int| 0 <= c < rooms.len() && rooms[c].id@ == k;
            assert(s[c].id@ == k);
        }
        if k == r.id@ {
            assert(s[i].id@ == k);
        }
    }
    assert forall|k: Seq<char>| #[trigger] rooms_map(s).contains_key(k) implies rooms_map(s)[k]
        == m[k] by {
        let c = choose|c: int| 0 <= c < s.len() && s[c].id@ == k;
        lemma_rooms_map_at(s, c);
        if c != i {
            lemma_rooms_map_at(rooms, c);
        }
    }
    assert(rooms_map(s) =~= m);
}

/// Listing a new room adds its entry.
proof fn lemma_rooms_map_push(rooms: Seq<Room>, r: Room)
    requires
        distinct_rooms(rooms),
        !rooms_map(rooms).contains_key(r.id@),
    ensures
        distinct_rooms(rooms.push(r)),
        rooms_map(rooms.push(r)) == rooms_map(rooms).insert(r.id@, r.connections@),
{
    let s = rooms.push(r);
    assert(distinct_rooms(s)) by {
        assert forall|a: int, b: int| 0 <= a < b < s.len() implies s[a].id@ != s[b].id@ by {
            if b == rooms.len() {
                assert(s[a] == rooms[a]);
            } else {
                assert(rooms[a].id@ != rooms[b].id@);
            }
        }
    }
    let m = rooms_map(rooms).insert(r.id@, r.connections@);
    assert forall|k: Seq<char>| #[trigger] rooms_map(s).contains_key(k) <==> m.contains_key(k) by {
        if rooms_map(s).contains_key(k) {
            let c = choose|c: int| 0 <= c < s.len() && s[c].id@ == k;
            if c < rooms.len() {
                assert(rooms[c] == s[c]);
            }
        }
        if m.contains_key(k) && k != r.id@ {
            let c = choose|c: int| 0 <= c < rooms.len() && rooms[c].id@ == k;
            assert(s[c].id@ == k);
        }
        if k == r.id@ {
            assert(s[rooms.len() as int].id@ == k);
        }
    }
    assert forall|k: Seq<char>| #[trigger] rooms_map(s).contains_key(k) implies rooms_map(s)[k]
        == m[k] by {
        let c = choose|c: int| 0 <= c < s.len() && s[c].id@ == k;
        lemma_rooms_map_at(s, c);
        if c < rooms.len() {
            assert(rooms[c] == s[c]);
            lemma_rooms_map_at(rooms, c);
        }
    }
    assert(rooms_map(s) =~= m);
}

/// Unlisting a room drops its entry.
proof fn lemma_rooms_map_remove(rooms: Seq<Room>, i: int)
    requires
        distinct_rooms(rooms),
        0 <= i < rooms.len(),
    ensures
        distinct_rooms(rooms.remove(i)),
        rooms_map(rooms.remove(i)) == rooms_map(rooms).remove(rooms[i].id@),
{
    let s = rooms.remove(i);
    let key = rooms[i].id@;
    assert(distinct_rooms(s)) by {
        assert forall|a: int, b: int| 0 <= a < b < s.len() implies s[a].id@ != s[b].id@ by {
            let a0 = if a < i { a } else { a + 1 };
            let b0 = if b < i { b } else { b + 1 };
            assert(s[a] == rooms[a0]);
            assert(s[b] == rooms[b0]);
            assert(rooms[a0].id@ != rooms[b0].id@);
        }
    }
    let m = rooms_map(rooms).remove(key);
    assert forall|k: Seq<char>| #[trigger] rooms_map(s).contains_key(k) <==> m.contains_key(k) by {
        if rooms_map(s).contains_key(k) {
            let c = choose|c: int| 0 <= c < s.len() && s[c].id@ == k;
            let c0 = if c < i { c } else { c + 1 };
            assert(s[c] == rooms[c0]);
            if c0 < i {
                assert(rooms[c0].id@ != rooms[i].id@);
            } else {
                assert(rooms[i].id@ != rooms[c0].id@);
            }
        }
        if m.contains_key(k) {
            let c = choose|c: int| 0 <= c < rooms.len() && rooms[c].id@ == k;
            assert(c != i);
            let c1 = if c < i { c } else { c - 1 };
            assert(s[c1] == rooms[c]);
        }
    }
    assert forall|k: Seq<char>| #[trigger] rooms_map(s).contains_key(k) implies rooms_map(s)[k]
        == m[k] by {
        let c = choose|c: int| 0 <= c < s.len() && s[c].id@ == k;
        lemma_rooms_map_at(s, c);
        let c0 = if c < i { c } else { c + 1 };
        assert(s[c] == rooms[c0]);
        lemma_rooms_map_at(rooms, c0);
    }
    assert(rooms_map(s) =~= m);
}

/// Index of the room with this id
fn find_room(rooms: &Vec<Room>, key: &String) -> (r: Option<usize>)
    requires
        distinct_rooms(rooms@),
    ensures
        match r {
            Some(i) => i < rooms@.len() && rooms@[i as int].id@ == key@ && rooms_map(rooms@).contains_key(
                key@,
            ) && rooms_map(rooms@)[key@] == rooms@[i as int].connections@,
            None => !rooms_map(rooms@).contains_key(key@),
        },
{
    let mut i: usize = 0;
    while i < rooms.len()
        invariant
            i <= rooms@.len(),
            distinct_rooms(rooms@),
            forall|j: int| 0 <= j < i ==> rooms@[j].id@ != key@,
        decreases rooms@.len() - i,
    {
        if rooms[i].id == *key {
            proof {
                let c = choose|c: int| 0 <= c < rooms@.len() && rooms@[c].id@ == key@;
                if c != i {
                    if c < i {
                        assert(rooms@[c].id@ != rooms@[i as int].id@);
                    } else {
                        assert(rooms@[i as int].id@ != rooms@[c].id@);
                    }
                }
            }
            return Some(i);
        }
        i = i + 1;
    }
    None
}

/// The connections without those of a player
fn without_player(conns: Vec<Connection>, player_id: PlayerId) -> (r: Vec<Connection>)
    ensures
        r@ == conns@.filter(other_player(player_id)),
{
    let ghost orig = conns@;
    let mut rest = conns;
    let mut kept: Vec<Connection> = Vec::new();
    let ghost mut k: int = 0;
    while rest.len() > 0
        invariant
            0 <= k <= orig.len(),
            rest@ == orig.subrange(k, orig.len() as int),
            kept@ == orig.take(k).filter(other_player(player_id)),
        decreases rest@.len(),
    {
        let c = rest.remove(0);
        proof {
            let s = orig.take(k + 1);
            assert(s.drop_last() =~= orig.take(k));
            assert(s.last() == c);
            reveal_with_fuel(Seq::<_>::filter, 1);
        }
        if c.player_id != player_id {
            kept.push(c);
        }
        proof {
            k = k + 1;
        }
        assert(rest@ =~= orig.subrange(k, orig.len() as int));
    }
    assert(orig.take(orig.len() as int) =~= orig);
    kept
}

impl Hub {
    /// Add a connection to a room
    pub fn join(&mut self, room_id: &str, player_id: PlayerId, tx: UnboundedSender<ServerEvent>)
        ensures
            final(self).rooms() == joined(old(self).rooms(), room_id@, (Connection { player_id, tx })),
    {
        proof {
            use_type_invariant(&*self);
        }
        let ghost before = self.rooms();
        let ghost tx0 = tx;
        let mut rooms: Vec<Room> = Vec::new();
        std::mem::swap(&mut rooms, &mut self.rooms);
        assert(rooms_map(rooms@) == before);
        let key = String::from_str(room_id);
        let idx = match find_room(&rooms, &key) {
            Some(i) => i,
            None => {
                let ghost r0 = rooms@;
                let room = Room { id: key, connections: Vec::new() };
                proof {
                    lemma_rooms_map_push(r0, room);
                    assert(room.connections@ =~= seq![]);
                }
                rooms.push(room);
                rooms.len() - 1
            },
        };
        let ghost r1 = rooms@;
        assert(rooms_map(r1)[room_id@] == if before.contains_key(room_id@) {
            before[room_id@]
        } else {
            seq![]
        });
        proof {
            lemma_rooms_map_at(r1, idx as int);
        }
        // Remove any existing connection for this player
        let mut conns: Vec<Connection> = Vec::new();
        std::mem::swap(&mut conns, &mut rooms[idx].connections);
        let mut conns = without_player(conns, player_id);
        conns.push(Connection { player_id, tx });
        rooms[idx].connections = conns;
        proof {
            lemma_rooms_map_update(r1, idx as int, rooms@[idx as int]);
            assert(rooms@ =~= r1.update(idx as int, rooms@[idx as int]));
        }
        self.rooms = rooms;
        assert(final(self).rooms() =~= joined(before, room_id@, Connection { player_id, tx: tx0 }));
    }

    /// Remove a connection from a room
    pub fn leave(&mut self, room_id: &str, player_id: PlayerId)
        ensures
            final(self).rooms() == left(old(self).rooms(), room_id@, player_id),
    {
        proof {
            use_type_invariant(&*self);
        }
        let ghost before = self.rooms();
        let mut rooms: Vec<Room> = Vec::new();
        std::mem::swap(&mut rooms, &mut self.rooms);
        let key = String::from_str(room_id);
        if let Some(idx) = find_room(&rooms, &key) {
            let ghost r1 = rooms@;
            proof {
                lemma_rooms_map_at(r1, idx as int);
            }
            let mut conns: Vec<Connection> = Vec::new();
            std::mem::swap(&mut conns, &mut rooms[idx].connections);
            let conns = without_player(conns, player_id);
            if conns.len() == 0 {
                rooms.remove(idx);
                proof {
                    lemma_rooms_map_remove(r1, idx as int);
                    assert(rooms@ =~= r1.remove(idx as int));
                }
            } else {
                rooms[idx].connections = conns;
                proof {
                    lemma_rooms_map_update(r1, idx as int, rooms@[idx as int]);
                    assert(rooms@ =~= r1.update(idx as int, rooms@[idx as int]));
                }
            }
        }
        self.rooms = rooms;
        assert(final(self).rooms() =~= left(before, room_id@, player_id));
    }

    /// Broadcast event to all players in a room
    pub fn broadcast(&self, room_id: &str, event: ServerEvent) {
        proof {
            use_type_invariant(self);
        }
        let key = String::from_str(room_id);
        if let Some(idx) = find_room(&self.rooms, &key) {
            let room = &self.rooms[idx];
            let mut i: usize = 0;
            while i < room.connections.len()
                invariant
                    i <= room.connections@.len(),
                decreases room.connections@.len() - i,
            {
                let _ = send_event(&room.connections[i].tx, event.clone());
                i = i + 1;
            }
        }
    }

    /// Send event to a specific player: to its first connection in the room
    pub fn send_to(&self, room_id: &str, player_id: PlayerId, event: ServerEvent) {
        proof {
            use_type_invariant(self);
        }
        let key = String::from_str(room_id);
        if let Some(idx) = find_room(&self.rooms, &key) {
            let room = &self.rooms[idx];
            let mut i: usize = 0;
            while i < room.connections.len()
                invariant
                    i <= room.connections@.len(),
                decreases room.connections@.len() - i,
            {
                if room.connections[i].player_id == player_id {
                    let _ = send_event(&room.connections[i].tx, event);
                    return;
                }
                i = i + 1;
            }
        }
    }
}

/// A player who (re)joins a room has exactly one connection there, the new
/// one, last; the other connections of the room keep their order.
pub proof fn law_join_replaces(rooms: Map<Seq<char>, Seq<Connection>>, room_id: Seq<char>, c: Connection)
    ensures
        ({
            let list = joined(rooms, room_id, c)[room_id];
            &&& list.last() == c
            &&& forall|k: int| 0 <= k < list.len() - 1 ==> (#[trigger] list[k]).player_id != c.player_id
        }),
{
    let before = if rooms.contains_key(room_id) {
        rooms[room_id]
    } else {
        seq![]
    };
    let kept = before.filter(other_player(c.player_id));
    kept.filter_lemma(other_player(c.player_id));
    before.filter_lemma(other_player(c.player_id));
    let list = joined(rooms, room_id, c)[room_id];
    assert forall|k: int| 0 <= k < list.len() - 1 implies (#[trigger] list[k]).player_id != c.player_id by {
        assert(list[k] == kept[k]);
        assert(other_player(c.player_id)(kept[k]));
    }
}

/// A player who joins a room and then leaves it is no longer connected there;
/// the other rooms are as they were.
pub proof fn law_join_then_leave(rooms: Map<Seq<char>, Seq<Connection>>, room_id: Seq<char>, c: Connection)
    ensures
        ({
            let after = left(joined(rooms, room_id, c), room_id, c.player_id);
            &&& after.contains_key(room_id) ==> !connection_ids(after[room_id]).contains(c.player_id)
            &&& forall|k: Seq<char>| k != room_id ==> (#[trigger] after.contains_key(k) <==> rooms.contains_key(k))
            &&& forall|k: Seq<char>| k != room_id && rooms.contains_key(k) ==> #[trigger] after[k] == rooms[k]
        }),
{
    let player_id = c.player_id;
    let j = joined(rooms, room_id, c);
    let list = j[room_id];
    let rest = list.filter(other_player(player_id));
    rest.filter_lemma(other_player(player_id));
    if connection_ids(rest).contains(player_id) {
        let k = choose|k: int| 0 <= k < connection_ids(rest).len() && connection_ids(rest)[k] == player_id;
        assert(other_player(player_id)(rest[k]));
    }
}

} // verus!
