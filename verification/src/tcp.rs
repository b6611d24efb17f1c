//! The relay: its configuration, the room registry, the session of one
//! connection, the reaper's sweep, and the bridge between two matched peers.

pub mod pipe;
pub mod rooms;
pub mod session;

use crate::tcp::rooms::{lists_expired, reaped, roomInfo, RoomMap};
use vstd::prelude::*;
use vstd::string::*;

verus! {

/// Milliseconds that a room may wait for its second peer.
pub const DEFAULT_ROOM_TTL: u64 = 10_800_000;

/// Milliseconds between two sweeps of the reaper.
pub const DEFAULT_ROOM_CLEANUP_INTERVAL: u64 = 600_000;

/// Milliseconds between two heartbeats to a peer that waits in a room.
pub const HEARTBEAT_INTERVAL: u64 = 1_000;

/// The heartbeat: one byte, sent as it is, without a frame.
pub const HEARTBEAT: u8 = 1;

/// A relay: where it listens, what it asks of its peers, and its rooms.
/// Times are in milliseconds on the caller's clock.
#[allow(non_camel_case_types)]
pub struct server {
    pub host: String,
    pub port: String,
    pub password: String,
    pub banner: String,
    pub rooms: RoomMap,
    pub room_cleanup_interval: u64,
    pub room_ttl: u64,
}

/// A relay with the default time-to-live and sweep interval, and no rooms.
fn new_default_server(host: &str, port: String, password: String, banner: String) -> (s: server)
    ensures
        s.host@ == host@,
        s.port@ == port@,
        s.password@ == password@,
        s.banner@ == banner@,
        s.rooms.wf(),
        s.rooms@ == Map::<Seq<char>, roomInfo>::empty(),
        s.room_ttl == DEFAULT_ROOM_TTL,
        s.room_cleanup_interval == DEFAULT_ROOM_CLEANUP_INTERVAL,
{
    server {
        host: host.to_owned(),
        port,
        password,
        banner,
        rooms: RoomMap::new(),
        room_ttl: DEFAULT_ROOM_TTL,
        room_cleanup_interval: DEFAULT_ROOM_CLEANUP_INTERVAL,
    }
}

/// Sets up a relay for `host` and `port` that asks for `password` and shows
/// `banner`. The caller listens at `listen_addr`, hands each connection to a
/// session, and has the reaper sweep the rooms.
pub fn run(host: &str, port: String, password: String, banner: String) -> (s: server)
    ensures
        s.host@ == host@,
        s.port@ == port@,
        s.password@ == password@,
        s.banner@ == banner@,
        s.rooms.wf(),
        s.rooms@ == Map::<Seq<char>, roomInfo>::empty(),
        s.room_ttl == DEFAULT_ROOM_TTL,
        s.room_cleanup_interval == DEFAULT_ROOM_CLEANUP_INTERVAL,
{
    new_default_server(host, port, password, banner)
}

/// Whether `pattern` stands in `text` at the index `i`.
pub open spec fn occurs_at(text: Seq<char>, pattern: Seq<char>, i: int) -> bool {
    0 <= i && i + pattern.len() <= text.len() && text.subrange(i, i + pattern.len()) == pattern
}

/// `text` with its leftmost occurrence of `pattern` replaced by `with`, or
/// `text` itself where `pattern` does not occur.
pub open spec fn first_replaced(
    text: Seq<char>,
    pattern: Seq<char>,
    with: Seq<char>,
) -> Seq<char> {
    if exists|i: int| occurs_at(text, pattern, i) {
        let i = choose|i: int|
            occurs_at(text, pattern, i) && forall|j: int| occurs_at(text, pattern, j) ==> i <= j;
        text.subrange(0, i) + with + text.subrange(i + pattern.len(), text.len() as int)
    } else {
        text
    }
}

/// `str::replacen` with a count of one: the leftmost match of `pattern` is
/// replaced by `with`.
#[verifier::external_body]
fn replace_first(text: &str, pattern: &str, with: &str) -> (replaced: String)
    ensures
        replaced@ == first_replaced(text@, pattern@, with@),
{
    text.replacen(pattern, with, 1)
}

/// The text `host:port`, with the loopback address, where it comes first in
/// it, replaced by the address of every interface.
pub open spec fn listen_address(host: Seq<char>, port: Seq<char>) -> Seq<char> {
    first_replaced(host + ":"@ + port, "127.0.0.1"@, "0.0.0.0"@)
}

impl server {
    /// The address to listen at.
    pub fn listen_addr(&self) -> (addr: String)
        ensures
            addr@ == listen_address(self.host@, self.port@),
    {
        let mut addr: String = self.host.as_str().to_owned();
        addr.append(":");
        addr.append(self.port.as_str());
        replace_first(addr.as_str(), "127.0.0.1", "0.0.0.0")
    }
}

/// What the reaper found when it looked for a sign to stop.
#[derive(Debug, Clone, Copy, PartialEq, Eq, Structural)]
pub enum StopSignal {
    /// The sign was given.
    Stop,
    /// Whoever could give the sign is gone.
    Disconnected,
    /// No sign yet.
    Empty,
}

/// What a turn of the reaper came to.
#[derive(Debug, PartialEq, Eq)]
pub enum Sweep {
    /// The reaper stops; the registry was left alone.
    Stopped,
    /// The reaper swept the registry and took out the rooms with the keys
    /// `removed`; it goes on.
    Swept { removed: Vec<String> },
}

/// One turn of the reaper, taken after each wait of a sweep interval. It
/// stops on the sign to stop, and when nobody is left to give one.
/// Otherwise it evicts every room that is not full and has been open for
/// longer than `room_ttl` at `now`.
pub fn delete_old_rooms(
    rooms: &mut RoomMap,
    stop: StopSignal,
    now: u64,
    room_ttl: u64,
) -> (r: Sweep)
    requires
        old(rooms).wf(),
    ensures
        final(rooms).wf(),
        stop != StopSignal::Empty ==> r is Stopped && final(rooms)@ == old(rooms)@,
        stop == StopSignal::Empty ==> final(rooms)@ == reaped(old(rooms)@, now, room_ttl) && (
        r matches Sweep::Swept { removed } && lists_expired(
            removed@,
            old(rooms)@,
            now,
            room_ttl,
        )),
{
    match stop {
        StopSignal::Empty => {
            let removed = rooms.delete_old(now, room_ttl);
            Sweep::Swept { removed }
        },
        _ => Sweep::Stopped,
    }
}

} // verus!
