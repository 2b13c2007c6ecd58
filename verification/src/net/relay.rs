//! The relay's room registry and the decisions it makes for a connection:
//! whom to seat, whom to tell that a peer joined or left, and where a
//! frame goes.
//!
//! Each connection is known by a number; whoever runs the relay keeps the
//! connection's outgoing mailbox under that number.
use vstd::prelude::*;

use crate::le::u32_at;
use crate::net::wire::{
    is_hello, Hello, RoomCode, ERROR, ERR_BAD, ERR_BUSY, ERR_EXISTS, ERR_FULL, ERR_MISSING, JOINED,
    PING,
};
use std::collections::HashMap;

verus! {

broadcast use vstd::std_specs::hash::group_hash_axioms;

/// Most rooms the relay keeps open at once.
pub const MAX_ROOMS: usize = 64;

/// The two seats of a room: the connections of its host and of its guest.
#[derive(Clone, Copy, Debug, PartialEq, Eq)]
pub struct Room {
    pub host: Option<u64>,
    pub guest: Option<u64>,
}

/// The number under which the registry files a room code.
pub open spec fn room_key(code: RoomCode) -> u32 {
    u32_at(code.0@, 0)
}

/// The registry keeps no room with both seats empty, and no more than
/// `MAX_ROOMS` rooms.
pub open spec fn registry_ok(rooms: Map<u32, Room>) -> bool {
    &&& rooms.dom().finite()
    &&& rooms.len() <= MAX_ROOMS
    &&& forall|k: u32| #[trigger] rooms.contains_key(k) ==> rooms[k].host is Some || rooms[k].guest is Some
}

/// The connection in the other seat of room `k`, seen from the host's seat
/// or from the guest's.
pub open spec fn peer(rooms: Map<u32, Room>, k: u32, as_host: bool) -> Option<u64> {
    if !rooms.contains_key(k) {
        None
    } else if as_host {
        rooms[k].guest
    } else {
        rooms[k].host
    }
}

/// What taking a seat does to the registry: a host opens a room that does
/// not exist yet while there is space, a guest takes the free guest seat of
/// an open room; otherwise the answer is an error code.
pub open spec fn seated(rooms: Map<u32, Room>, k: u32, as_host: bool, conn: u64) -> Result<
    Map<u32, Room>,
    u8,
> {
    if as_host {
        if rooms.contains_key(k) {
            Err(ERR_EXISTS)
        } else if rooms.len() >= MAX_ROOMS {
            Err(ERR_BUSY)
        } else {
            Ok(rooms.insert(k, Room { host: Some(conn), guest: None }))
        }
    } else {
        if !rooms.contains_key(k) {
            Err(ERR_MISSING)
        } else if rooms[k].guest is Some {
            Err(ERR_FULL)
        } else {
            Ok(rooms.insert(k, Room { host: rooms[k].host, guest: Some(conn) }))
        }
    }
}

/// What leaving a seat does to the registry: the seat is freed, and a room
/// whose seats are both free is closed.
pub open spec fn vacated(rooms: Map<u32, Room>, k: u32, as_host: bool) -> Map<u32, Room> {
    if !rooms.contains_key(k) {
        rooms
    } else {
        let room = if as_host {
            Room { host: None, guest: rooms[k].guest }
        } else {
            Room { host: rooms[k].host, guest: None }
        };
        if room.host is None && room.guest is None {
            rooms.remove(k)
        } else {
            rooms.insert(k, room)
        }
    }
}

fn key(code: RoomCode) -> (k: u32)
    ensures
        k == room_key(code),
{
    code.0[0] as u32 + 0x100 * code.0[1] as u32 + 0x1_0000 * code.0[2] as u32 + 0x100_0000
        * code.0[3] as u32
}

pub struct Hub {
    rooms: HashMap<u32, Room>,
}

impl View for Hub {
    type V = Map<u32, Room>;

    closed spec fn view(&self) -> Map<u32, Room> {
        self.rooms@
    }
}

impl Hub {
    /// The registry keeps no empty room and no more than `MAX_ROOMS` rooms.
    #[verifier::type_invariant]
    spec fn well_formed(&self) -> bool {
        registry_ok(self.rooms@)
    }

    pub fn new() -> (hub: Self)
        ensures
            hub@ == Map::<u32, Room>::empty(),
            registry_ok(hub@),
    {
        Hub { rooms: HashMap::new() }
    }

    /// The connection in the other seat of `code`'s room.
    pub fn other(&self, code: RoomCode, as_host: bool) -> (r: Option<u64>)
        ensures
            r == peer(self@, room_key(code), as_host),
    {
        match self.rooms.get(&key(code)) {
            None => None,
            Some(room) => if as_host {
                room.guest
            } else {
                room.host
            },
        }
    }
}

fn seat_in(rooms: &mut HashMap<u32, Room>, k: u32, as_host: bool, conn: u64) -> (r: Result<(), u8>)
    requires
        registry_ok(old(rooms)@),
    ensures
        registry_ok(final(rooms)@),
        match seated(old(rooms)@, k, as_host, conn) {
            Ok(after) => r is Ok && final(rooms)@ == after,
            Err(e) => r == Err::<(), u8>(e) && final(rooms)@ == old(rooms)@,
        },
{
    if as_host {
        if rooms.contains_key(&k) {
            return Err(ERR_EXISTS);
        }
        if rooms.len() >= MAX_ROOMS {
            return Err(ERR_BUSY);
        }
        rooms.insert(k, Room { host: Some(conn), guest: None });
        Ok(())
    } else {
        let room = match rooms.get(&k) {
            None => return Err(ERR_MISSING),
            Some(room) => *room,
        };
        if room.guest.is_some() {
            return Err(ERR_FULL);
        }
        rooms.insert(k, Room { host: room.host, guest: Some(conn) });
        Ok(())
    }
}

fn vacate_in(rooms: &mut HashMap<u32, Room>, k: u32, as_host: bool)
    requires
        registry_ok(old(rooms)@),
    ensures
        registry_ok(final(rooms)@),
        final(rooms)@ == vacated(old(rooms)@, k, as_host),
{
    let room = match rooms.get(&k) {
        None => return,
        Some(room) => *room,
    };
    let left = if as_host {
        Room { host: None, guest: room.guest }
    } else {
        Room { host: room.host, guest: None }
    };
    if left.host.is_none() && left.guest.is_none() {
        rooms.remove(&k);
    } else {
        rooms.insert(k, left);
    }
}

/// Seats connection `conn` as the host or the guest of `code`'s room.
pub fn register(hub: &mut Hub, code: RoomCode, as_host: bool, conn: u64) -> (r: Result<(), u8>)
    ensures
        registry_ok(final(hub)@),
        match seated(old(hub)@, room_key(code), as_host, conn) {
            Ok(rooms) => r is Ok && final(hub)@ == rooms,
            Err(e) => r == Err::<(), u8>(e) && final(hub)@ == old(hub)@,
        },
{
    proof {
        use_type_invariant(&*hub);
    }
    let mut rooms = HashMap::new();
    std::mem::swap(&mut rooms, &mut hub.rooms);
    let r = seat_in(&mut rooms, key(code), as_host, conn);
    hub.rooms = rooms;
    r
}

/// Frees the seat a connection held; returns the connection in the other
/// seat, which is to hear that its peer left.
pub fn leave(hub: &mut Hub, code: RoomCode, as_host: bool) -> (r: Option<u64>)
    ensures
        registry_ok(final(hub)@),
        r == peer(old(hub)@, room_key(code), as_host),
        final(hub)@ == vacated(old(hub)@, room_key(code), as_host),
{
    proof {
        use_type_invariant(&*hub);
    }
    let other = hub.other(code, as_host);
    let mut rooms = HashMap::new();
    std::mem::swap(&mut rooms, &mut hub.rooms);
    vacate_in(&mut rooms, key(code), as_host);
    hub.rooms = rooms;
    other
}

/// How the relay answers a connection's hello frame.
#[derive(Clone, Copy, Debug, PartialEq, Eq)]
pub enum Admission {
    /// The first frame was no hello; the connection is dropped.
    Malformed,
    /// The seat could not be taken, for the reason the error code gives.
    Refused(u8),
    /// The connection holds a seat of `code`'s room; `notify` is a host
    /// that is to hear that its guest arrived.
    Joined { code: RoomCode, as_host: bool, notify: Option<u64> },
}

impl Admission {
    /// The frame the relay sends back.
    pub open spec fn answer_bytes(self) -> Seq<u8> {
        match self {
            Admission::Malformed => seq![ERROR, ERR_BAD],
            Admission::Refused(e) => seq![ERROR, e],
            Admission::Joined { as_host, .. } => seq![
                JOINED,
                if as_host {
                    0u8
                } else {
                    1u8
                },
            ],
        }
    }

    pub fn answer(&self) -> (r: Vec<u8>)
        ensures
            r@ == self.answer_bytes(),
    {
        let r = match self {
            Admission::Malformed => vec![ERROR, ERR_BAD],
            Admission::Refused(e) => vec![ERROR, *e],
            Admission::Joined { as_host, .. } => vec![JOINED, if *as_host {
                0
            } else {
                1
            }],
        };
        assert(r@ =~= self.answer_bytes());
        r
    }
}

/// Reads the hello frame of connection `conn` and seats it.
pub fn take_seat(hub: &mut Hub, hello: &[u8], conn: u64) -> (r: Admission)
    ensures
        registry_ok(final(hub)@),
        !is_hello(hello@) ==> r == Admission::Malformed && final(hub)@ == old(hub)@,
        is_hello(hello@) ==> {
            let k = u32_at(hello@, 1);
            let as_host = hello@[0] == crate::net::wire::HOST;
            match seated(old(hub)@, k, as_host, conn) {
                Err(e) => r == Admission::Refused(e) && final(hub)@ == old(hub)@,
                Ok(rooms) => final(hub)@ == rooms && (r matches Admission::Joined {
                    code,
                    as_host: seat,
                    notify,
                } && code.0@ == hello@.subrange(1, 5) && seat == as_host && notify == (if as_host {
                    None
                } else {
                    peer(rooms, k, false)
                })),
            }
        },
{
    proof {
        use_type_invariant(&*hub);
    }
    let h = match Hello::decode(hello) {
        None => return Admission::Malformed,
        Some(h) => h,
    };
    let (code, as_host) = match h {
        Hello::Host(code) => (code, true),
        Hello::Guest(code) => (code, false),
    };
    assert(room_key(code) == u32_at(hello@, 1));
    match register(hub, code, as_host, conn) {
        Err(e) => Admission::Refused(e),
        Ok(()) => {
            let notify = if as_host {
                None
            } else {
                hub.other(code, false)
            };
            Admission::Joined { code, as_host, notify }
        },
    }
}

/// Where a frame from a seated connection goes.
#[derive(Clone, Copy, Debug, PartialEq, Eq)]
pub struct Route {
    /// The sender asked whether the relay is alive and is answered at once.
    pub pong: bool,
    /// The connection in the other seat, which receives the frame.
    pub peer: Option<u64>,
}

pub fn route(hub: &Hub, code: RoomCode, as_host: bool, frame: &[u8]) -> (r: Route)
    ensures
        r.pong == (frame@.len() > 0 && frame@[0] == PING),
        r.peer == peer(hub@, room_key(code), as_host),
{
    Route { pong: frame.len() > 0 && frame[0] == PING, peer: hub.other(code, as_host) }
}

/// Distinct room codes are filed under distinct numbers.
pub proof fn lemma_room_key_injective(a: RoomCode, b: RoomCode)
    requires
        room_key(a) == room_key(b),
    ensures
        a == b,
{
    crate::le::lemma_u32_bytes_of_value(a.0@, 0);
    crate::le::lemma_u32_bytes_of_value(b.0@, 0);
    assert(a.0@ =~= a.0@.subrange(0, 4));
    assert(b.0@ =~= b.0@.subrange(0, 4));
    assert(a.0@ == b.0@);
    vstd::array::axiom_array_ext_equal(a.0, b.0);
    assert(a.0 == b.0);
}

/// A connection that takes a seat and leaves it again leaves the registry
/// as it found it.
pub proof fn lemma_leave_undoes_register(rooms: Map<u32, Room>, k: u32, as_host: bool, conn: u64)
    requires
        registry_ok(rooms),
    ensures
        seated(rooms, k, as_host, conn) matches Ok(after) ==> vacated(after, k, as_host) == rooms,
{
    if let Ok(after) = seated(rooms, k, as_host, conn) {
        if as_host {
            assert(vacated(after, k, as_host) =~= rooms);
        } else {
            assert(rooms.contains_key(k));
            assert(rooms[k].host is Some);
            assert(vacated(after, k, as_host) =~= rooms);
        }
    }
}

/// A room seats one host and one guest, each of whom sees the other, and
/// it refuses a second host and a second guest.
pub proof fn lemma_room_pairs_host_and_guest(
    rooms: Map<u32, Room>,
    k: u32,
    host: u64,
    guest: u64,
    other: u64,
)
    requires
        registry_ok(rooms),
    ensures
        seated(rooms, k, true, host) matches Ok(hosted) ==> (seated(hosted, k, false, guest) matches Ok(
            full,
        ) ==> {
            &&& peer(full, k, true) == Some(guest)
            &&& peer(full, k, false) == Some(host)
            &&& seated(full, k, false, other) == Err::<Map<u32, Room>, u8>(ERR_FULL)
            &&& seated(full, k, true, other) == Err::<Map<u32, Room>, u8>(ERR_EXISTS)
        }),
{
}

/// Taking or leaving a seat in one room leaves every other room as it was.
pub proof fn lemma_rooms_independent(
    rooms: Map<u32, Room>,
    k: u32,
    j: u32,
    as_host: bool,
    conn: u64,
    seen_as_host: bool,
)
    requires
        k != j,
    ensures
        seated(rooms, k, as_host, conn) matches Ok(after) ==> peer(after, j, seen_as_host) == peer(
            rooms,
            j,
            seen_as_host,
        ),
        peer(vacated(rooms, k, as_host), j, seen_as_host) == peer(rooms, j, seen_as_host),
{
}

} // verus!
