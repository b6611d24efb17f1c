//! The room registry: at most one room per key, at most two peers per room.

use vstd::hash_map::StringHashMap;
use vstd::prelude::*;

verus! {

/// A rendezvous slot. `first` and `second` name the connections that hold
/// it; `opened` is the time, on the caller's clock, at which it was made.
#[allow(non_camel_case_types)]
#[derive(Debug, Clone, Copy, PartialEq, Eq)]
pub struct roomInfo {
    pub full: bool,
    pub opened: u64,
    pub first: Option<u64>,
    pub second: Option<u64>,
}

/// What a request for a room came to.
#[derive(Debug, Clone, Copy, PartialEq, Eq)]
pub enum Join {
    /// No room had the key: one was made, with the requester as its first peer.
    Created,
    /// A room was waiting: the requester is its second peer, `first` the peer
    /// that waited.
    Matched { first: u64 },
    /// The room has its two peers: nothing was changed.
    Full,
}

/// What the peer that waits in a room should do next.
#[derive(Debug, Clone, Copy, PartialEq, Eq)]
pub enum Watch {
    /// The room is no more.
    Gone,
    /// The room has both its peers.
    Ready,
    /// The room still waits: probe the connection `conn` with a heartbeat.
    Probe { conn: u64 },
}

/// What holds of every room in a registry: it has a first peer, and it is
/// full exactly when it has a second.
pub open spec fn room_wf(room: roomInfo) -> bool {
    &&& room.first is Some
    &&& room.full <==> room.second is Some
}

/// What holds of every registry: each of its rooms is well formed.
pub open spec fn rooms_wf(rooms: Map<Seq<char>, roomInfo>) -> bool {
    forall|k: Seq<char>| rooms.contains_key(k) ==> room_wf(#[trigger] rooms[k])
}

/// The room that a first peer `conn` opens at `now`.
pub open spec fn fresh_room(conn: u64, now: u64) -> roomInfo {
    roomInfo { full: false, opened: now, first: Some(conn), second: None }
}

/// The registry after `conn` asked for the room `key` at `now`.
pub open spec fn joined(
    rooms: Map<Seq<char>, roomInfo>,
    key: Seq<char>,
    conn: u64,
    now: u64,
) -> Map<Seq<char>, roomInfo> {
    if !rooms.contains_key(key) {
        rooms.insert(key, fresh_room(conn, now))
    } else if rooms[key].full {
        rooms
    } else {
        rooms.insert(key, roomInfo { full: true, second: Some(conn), ..rooms[key] })
    }
}

/// What `conn` is told when it asks for the room `key`.
pub open spec fn join_answer(rooms: Map<Seq<char>, roomInfo>, key: Seq<char>) -> Join {
    if !rooms.contains_key(key) {
        Join::Created
    } else if rooms[key].full {
        Join::Full
    } else {
        Join::Matched { first: rooms[key].first.unwrap() }
    }
}

/// Whether the reaper evicts `room` at `now`: it is not full and has been
/// open for longer than `ttl`.
pub open spec fn expired(room: roomInfo, now: u64, ttl: u64) -> bool {
    !room.full && now - room.opened > ttl
}

/// The registry after the reaper's sweep at `now`.
pub open spec fn reaped(
    rooms: Map<Seq<char>, roomInfo>,
    now: u64,
    ttl: u64,
) -> Map<Seq<char>, roomInfo> {
    Map::new(
        |k: Seq<char>| rooms.contains_key(k) && !expired(rooms[k], now, ttl),
        |k: Seq<char>| rooms[k],
    )
}

/// The registry after the peer that waited in `key` was found gone: the room
/// leaves unless it is full.
pub open spec fn abandoned(
    rooms: Map<Seq<char>, roomInfo>,
    key: Seq<char>,
) -> Map<Seq<char>, roomInfo> {
    if rooms.contains_key(key) && !rooms[key].full {
        rooms.remove(key)
    } else {
        rooms
    }
}

/// What the peer that waits in `key` should do next.
pub open spec fn watched(rooms: Map<Seq<char>, roomInfo>, key: Seq<char>) -> Watch {
    if !rooms.contains_key(key) {
        Watch::Gone
    } else if rooms[key].full {
        Watch::Ready
    } else {
        Watch::Probe { conn: rooms[key].first.unwrap() }
    }
}

/// Whether `key` is among `keys`.
pub open spec fn names(keys: Seq<String>, key: Seq<char>) -> bool {
    exists|j: int| 0 <= j < keys.len() && (#[trigger] keys[j])@ == key
}

/// Whether `removed` holds the keys of the rooms of `rooms` that the reaper
/// evicts at `now`, and no others.
pub open spec fn lists_expired(
    removed: Seq<String>,
    rooms: Map<Seq<char>, roomInfo>,
    now: u64,
    ttl: u64,
) -> bool {
    forall|k: Seq<char>| #[trigger]
        names(removed, k) <==> rooms.contains_key(k) && expired(rooms[k], now, ttl)
}

/// The rooms of a relay, by key.
pub struct RoomMap {
    rooms: StringHashMap<roomInfo>,
    keys: Vec<String>,
}

impl View for RoomMap {
    type V = Map<Seq<char>, roomInfo>;

    closed spec fn view(&self) -> Map<Seq<char>, roomInfo> {
        self.rooms@
    }
}

impl RoomMap {
    /// The registry's invariant: its key index lists each room's key once,
    /// and every room is well formed.
    pub closed spec fn wf(&self) -> bool {
        &&& forall|i: int, j: int|
            0 <= i < j < self.keys@.len() ==> (#[trigger] self.keys@[i])@ != (
            #[trigger] self.keys@[j])@
        &&& forall|i: int|
            0 <= i < self.keys@.len() ==> self.rooms@.contains_key((#[trigger] self.keys@[i])@)
        &&& forall|k: Seq<char>| #[trigger]
            self.rooms@.contains_key(k) ==> exists|i: int|
                0 <= i < self.keys@.len() && (#[trigger] self.keys@[i])@ == k
        &&& rooms_wf(self.rooms@)
    }

    /// Every room of a well-formed registry is well formed.
    pub proof fn lemma_wf_rooms(&self)
        requires
            self.wf(),
        ensures
            rooms_wf(self@),
    {
    }

    /// A registry without rooms.
    pub fn new() -> (r: RoomMap)
        ensures
            r.wf(),
            r@ == Map::<Seq<char>, roomInfo>::empty(),
    {
        RoomMap { rooms: StringHashMap::new(), keys: Vec::new() }
    }

    /// The number of rooms.
    pub fn len(&self) -> (n: usize)
        ensures
            n == self@.len(),
    {
        broadcast use vstd::hash_map::group_hash_map_axioms;

        self.rooms.len()
    }

    /// The room with the key `key`, if there is one.
    pub fn get(&self, key: &String) -> (r: Option<roomInfo>)
        ensures
            r == if self@.contains_key(key@) {
                Some(self@[key@])
            } else {
                None
            },
    {
        match self.rooms.get(key.as_str()) {
            Some(room) => Some(*room),
            None => None,
        }
    }

    /// Where `key` stands in the key index.
    fn position(&self, key: &String) -> (r: Option<usize>)
        ensures
            match r {
                Some(i) => i < self.keys@.len() && self.keys@[i as int]@ == key@,
                None => forall|i: int| 0 <= i < self.keys@.len() ==> self.keys@[i]@ != key@,
            },
    {
        let mut i: usize = 0;
        while i < self.keys.len()
            invariant
                i <= self.keys@.len(),
                forall|j: int| 0 <= j < i ==> self.keys@[j]@ != key@,
            decreases self.keys@.len() - i,
        {
            if self.keys[i] == *key {
                return Some(i);
            }
            i += 1;
        }
        None
    }

    /// Asks for the room `key` on behalf of the connection `conn`: makes the
    /// room, or takes its second place, or finds it full.
    pub fn join(&mut self, key: &String, conn: u64, now: u64) -> (r: Join)
        requires
            old(self).wf(),
        ensures
            final(self).wf(),
            final(self)@ == joined(old(self)@, key@, conn, now),
            r == join_answer(old(self)@, key@),
    {
        match self.get(key) {
            None => {
                let room = roomInfo { full: false, opened: now, first: Some(conn), second: None };
                self.rooms.insert(key.clone(), room);
                self.keys.push(key.clone());
                proof {
                    let n = old(self).keys@.len() as int;
                    assert forall|k: Seq<char>| #[trigger]
                        self.rooms@.contains_key(k) implies exists|i: int|
                        0 <= i < self.keys@.len() && (#[trigger] self.keys@[i])@ == k by {
                        if k == key@ {
                            assert(self.keys@[n]@ == k);
                        } else {
                            let i = choose|i: int|
                                0 <= i < old(self).keys@.len() && (#[trigger] old(
                                    self,
                                ).keys@[i])@ == k;
                            assert(self.keys@[i]@ == k);
                        }
                    }
                }
                Join::Created
            },
            Some(room) => {
                if room.full {
                    Join::Full
                } else {
                    let taken = roomInfo {
                        full: true,
                        opened: room.opened,
                        first: room.first,
                        second: Some(conn),
                    };
                    self.rooms.insert(key.clone(), taken);
                    proof {
                        assert forall|k: Seq<char>| #[trigger]
                            self.rooms@.contains_key(k) implies exists|i: int|
                            0 <= i < self.keys@.len() && (#[trigger] self.keys@[i])@ == k by {
                            let i = choose|i: int|
                                0 <= i < old(self).keys@.len() && (#[trigger] old(
                                    self,
                                ).keys@[i])@ == k;
                            assert(self.keys@[i]@ == k);
                        }
                    }
                    Join::Matched { first: room.first.unwrap() }
                }
            },
        }
    }

    /// Takes the `i`-th key of the index, and its room, out of the registry.
    fn drop_at(&mut self, i: usize) -> (key: String)
        requires
            old(self).wf(),
            i < old(self).keys@.len(),
        ensures
            final(self).wf(),
            key@ == old(self).keys@[i as int]@,
            final(self).keys@ == old(self).keys@.remove(i as int),
            final(self)@ == old(self)@.remove(key@),
    {
        let key = self.keys.remove(i);
        self.rooms.remove(key.as_str());
        proof {
            let before = old(self).keys@;
            let after = self.keys@;
            assert forall|k: Seq<char>| #[trigger]
                self.rooms@.contains_key(k) implies exists|j: int|
                0 <= j < after.len() && (#[trigger] after[j])@ == k by {
                let j0 = choose|j: int| 0 <= j < before.len() && (#[trigger] before[j])@ == k;
                let j = if j0 < i { j0 } else { j0 - 1 };
                assert(after[j]@ == k);
            }
        }
        key
    }

    /// Takes the room `key` out of the registry, if it is there.
    pub fn remove(&mut self, key: &String)
        requires
            old(self).wf(),
        ensures
            final(self).wf(),
            final(self)@ == old(self)@.remove(key@),
    {
        match self.position(key) {
            Some(i) => {
                let _ = self.drop_at(i);
            },
            None => {},
        }
    }

    /// Takes the room `key` out of the registry unless it is full: what is
    /// done when the peer that waited in it is found gone. Says whether a
    /// room left.
    pub fn remove_waiting(&mut self, key: &String) -> (left: bool)
        requires
            old(self).wf(),
        ensures
            final(self).wf(),
            final(self)@ == abandoned(old(self)@, key@),
            left == (old(self)@.contains_key(key@) && !old(self)@[key@].full),
    {
        match self.get(key) {
            Some(room) => {
                if room.full {
                    false
                } else {
                    self.remove(key);
                    true
                }
            },
            None => false,
        }
    }

    /// Says what the peer that waits in the room `key` should do next.
    pub fn watch(&self, key: &String) -> (w: Watch)
        requires
            self.wf(),
        ensures
            w == watched(self@, key@),
    {
        match self.get(key) {
            None => Watch::Gone,
            Some(room) => {
                if room.full {
                    Watch::Ready
                } else {
                    Watch::Probe { conn: room.first.unwrap() }
                }
            },
        }
    }

    /// The reaper's sweep: evicts every room that is not full and has been
    /// open for longer than `ttl` at `now`, and returns the keys of those
    /// rooms.
    pub fn delete_old(&mut self, now: u64, ttl: u64) -> (removed: Vec<String>)
        requires
            old(self).wf(),
        ensures
            final(self).wf(),
            final(self)@ == reaped(old(self)@, now, ttl),
            lists_expired(removed@, old(self)@, now, ttl),
    {
        let mut removed: Vec<String> = Vec::new();
        let mut i: usize = 0;
        while i < self.keys.len()
            invariant
                self.wf(),
                i <= self.keys@.len(),
                forall|k: Seq<char>| #[trigger]
                    self.rooms@.contains_key(k) ==> old(self).rooms@.contains_key(k)
                        && self.rooms@[k] == old(self).rooms@[k],
                forall|k: Seq<char>|
                    old(self).rooms@.contains_key(k) && !expired(
                        #[trigger] old(self).rooms@[k],
                        now,
                        ttl,
                    ) ==> self.rooms@.contains_key(k),
                forall|j: int|
                    0 <= j < i ==> !expired(self.rooms@[(#[trigger] self.keys@[j])@], now, ttl),
                forall|j: int|
                    0 <= j < removed@.len() ==> old(self).rooms@.contains_key(
                        (#[trigger] removed@[j])@,
                    ) && expired(old(self).rooms@[removed@[j]@], now, ttl),
                forall|k: Seq<char>|
                    old(self).rooms@.contains_key(k) && !#[trigger] self.rooms@.contains_key(k)
                        ==> exists|j: int| 0 <= j < removed@.len() && (#[trigger] removed@[j])@ == k,
            decreases self.keys@.len() - i,
        {
            let room = self.get(&self.keys[i]);
            let room = room.unwrap();
            let stale: bool = !room.full && now > room.opened && now - room.opened > ttl;
            if stale {
                let ghost listed = removed@;
                let key = self.drop_at(i);
                removed.push(key);
                proof {
                    let n = listed.len() as int;
                    assert forall|k: Seq<char>|
                        old(self).rooms@.contains_key(k) && !#[trigger] self.rooms@.contains_key(
                            k,
                        ) implies exists|j: int|
                        0 <= j < removed@.len() && (#[trigger] removed@[j])@ == k by {
                        if k == key@ {
                            assert(removed@[n]@ == k);
                        } else {
                            let j = choose|j: int|
                                0 <= j < listed.len() && (#[trigger] listed[j])@ == k;
                            assert(removed@[j]@ == k);
                        }
                    }
                }
            } else {
                i += 1;
            }
        }
        proof {
            assert forall|k: Seq<char>|
                (exists|j: int| 0 <= j < removed@.len() && (#[trigger] removed@[j])@ == k) <==> (
                old(self)@.contains_key(k) && expired(old(self)@[k], now, ttl)) by {
                if old(self)@.contains_key(k) && expired(old(self)@[k], now, ttl) {
                    assert(!self.rooms@.contains_key(k));
                }
            }
        }
        removed
    }
}

/// A room is matched once, and a third peer changes nothing: on a registry
/// without the room `key`, the first request makes the room, the second
/// fills it with the first peer as its partner, and after a third request
/// the registry is what it was after the second.
pub proof fn lemma_room_matching(
    rooms: Map<Seq<char>, roomInfo>,
    key: Seq<char>,
    a: u64,
    b: u64,
    c: u64,
    t1: u64,
    t2: u64,
    t3: u64,
)
    requires
        !rooms.contains_key(key),
    ensures
        ({
            let one = joined(rooms, key, a, t1);
            let two = joined(one, key, b, t2);
            let three = joined(two, key, c, t3);
            &&& join_answer(rooms, key) == Join::Created
            &&& join_answer(one, key) == Join::Matched { first: a }
            &&& join_answer(two, key) == Join::Full
            &&& one[key] == fresh_room(a, t1)
            &&& two[key] == roomInfo { full: true, opened: t1, first: Some(a), second: Some(b) }
            &&& three == two
            &&& forall|k: Seq<char>|
                k != key ==> (three.contains_key(k) <==> rooms.contains_key(k)) && (
                rooms.contains_key(k) ==> three[k] == rooms[k])
        }),
{
}

/// Whatever happens to a registry, it stays well formed: after a request,
/// after the reaper's sweep, and after a room was taken out or abandoned.
pub proof fn lemma_registry_stays_well_formed(
    rooms: Map<Seq<char>, roomInfo>,
    key: Seq<char>,
    conn: u64,
    now: u64,
    ttl: u64,
)
    requires
        rooms_wf(rooms),
    ensures
        rooms_wf(joined(rooms, key, conn, now)),
        rooms_wf(reaped(rooms, now, ttl)),
        rooms_wf(rooms.remove(key)),
        rooms_wf(abandoned(rooms, key)),
{
}

/// A room goes from absent to waiting to full, and never back: a request
/// takes no room out of the registry, leaves a full room as it is, and
/// changes neither the first peer of a room nor the time it was opened.
pub proof fn lemma_room_order(
    rooms: Map<Seq<char>, roomInfo>,
    key: Seq<char>,
    conn: u64,
    now: u64,
    other: Seq<char>,
)
    requires
        rooms.contains_key(other),
    ensures
        joined(rooms, key, conn, now).contains_key(other),
        joined(rooms, key, conn, now)[other].first == rooms[other].first,
        joined(rooms, key, conn, now)[other].opened == rooms[other].opened,
        rooms[other].full ==> joined(rooms, key, conn, now)[other] == rooms[other],
        other != key ==> joined(rooms, key, conn, now)[other] == rooms[other],
{
}

/// The reaper evicts what waited too long and nothing else: after a sweep at
/// `now`, a room that was not full and was opened more than `ttl` before
/// `now` is gone, and every other room, a full one above all, is there
/// unchanged.
pub proof fn lemma_reaper(rooms: Map<Seq<char>, roomInfo>, key: Seq<char>, now: u64, ttl: u64)
    requires
        rooms.contains_key(key),
    ensures
        !rooms[key].full && now - rooms[key].opened > ttl ==> !reaped(rooms, now, ttl).contains_key(
            key,
        ),
        rooms[key].full || now - rooms[key].opened <= ttl ==> reaped(rooms, now, ttl).contains_key(
            key,
        ) && reaped(rooms, now, ttl)[key] == rooms[key],
{
}

} // verus!
