//! Connection ids on the wire.
//!
//! The client announces both streams of a session with 64-bit ids that differ
//! in the lowest bit only. That bit tells the directions apart, the other 63
//! bits name the session.

use vstd::prelude::*;

verus! {

/// The direction in which a stream carries data, as the proxied client sees it.
#[derive(Clone, Copy, Debug, PartialEq, Eq, Structural)]
pub enum Direction {
    Up,
    Down,
}

impl Direction {
    /// The other direction.
    pub open spec fn opposite(self) -> Direction {
        match self {
            Direction::Up => Direction::Down,
            Direction::Down => Direction::Up,
        }
    }

    /// What the direction adds to a session id on the wire.
    pub open spec fn bit(self) -> int {
        match self {
            Direction::Up => 0,
            Direction::Down => 1,
        }
    }
}

/// The session id made from a random number: the number doubled, as far as it
/// fits in 64 bits, which leaves the lowest bit free.
pub open spec fn session_id_of(raw: u64) -> u64 {
    ((2 * raw) % 0x1_0000_0000_0000_0000) as u64
}

/// The id that announces the stream of `direction`: the session id, with its
/// lowest bit set for the way down.
pub open spec fn wire_id_of(session_id: u64, direction: Direction) -> u64 {
    match direction {
        Direction::Up => session_id,
        Direction::Down => if session_id % 2 == 0 {
            (session_id + 1) as u64
        } else {
            session_id
        },
    }
}

/// The direction that an id on the wire announces.
pub open spec fn direction_of(wire_id: u64) -> Direction {
    if wire_id % 2 == 1 {
        Direction::Down
    } else {
        Direction::Up
    }
}

/// The session that an id on the wire belongs to.
pub open spec fn key_of(wire_id: u64) -> u64 {
    wire_id / 2
}

/// Makes a session id from a random number.
pub fn session_id(raw: u64) -> (id: u64)
    ensures
        id == session_id_of(raw),
        id % 2 == 0,
        id / 2 == raw % 0x8000_0000_0000_0000,
{
    assert(raw << 1 == (2 * raw) % 0x1_0000_0000_0000_0000) by (bit_vector);
    assert(raw << 1 == 2 * (raw % 0x8000_0000_0000_0000)) by (bit_vector);
    raw << 1
}

/// The id to write on the stream of `direction` of a session.
pub fn wire_id(session_id: u64, direction: Direction) -> (id: u64)
    ensures
        id == wire_id_of(session_id, direction),
        direction == Direction::Up ==> id == session_id,
        direction == Direction::Down ==> id % 2 == 1 && id / 2 == session_id / 2,
{
    match direction {
        Direction::Up => session_id,
        Direction::Down => {
            assert(session_id % 2 == 0 ==> session_id | 1 == session_id + 1) by (bit_vector);
            assert(session_id % 2 == 1 ==> session_id | 1 == session_id) by (bit_vector);
            session_id | 1
        },
    }
}

/// Splits an id read from a stream into the session's key and the direction.
pub fn split_wire_id(wire_id: u64) -> (parts: (u64, Direction))
    ensures
        parts.0 == key_of(wire_id),
        parts.1 == direction_of(wire_id),
        parts.1 == Direction::Down ==> wire_id == 2 * parts.0 + 1,
        parts.1 == Direction::Up ==> wire_id == 2 * parts.0,
{
    assert(wire_id & 1 == wire_id % 2) by (bit_vector);
    assert(wire_id >> 1 == wire_id / 2) by (bit_vector);
    let direction = if (wire_id & 1) != 0 {
        Direction::Down
    } else {
        Direction::Up
    };
    (wire_id >> 1, direction)
}

/// What is written for a stream tells the reader its direction and, of the
/// random number that the session was made from, the low 63 bits.
pub proof fn law_wire_id_round_trip(raw: u64, direction: Direction)
    ensures
        direction_of(wire_id_of(session_id_of(raw), direction)) == direction,
        key_of(wire_id_of(session_id_of(raw), direction)) == raw % 0x8000_0000_0000_0000,
{
    assert((2 * raw) % 0x1_0000_0000_0000_0000 == 2 * (raw % 0x8000_0000_0000_0000))
        by (bit_vector);
}

/// The two streams of a session have different ids, for the same session.
pub proof fn law_streams_share_a_key(raw: u64)
    ensures
        wire_id_of(session_id_of(raw), Direction::Up) != wire_id_of(
            session_id_of(raw),
            Direction::Down,
        ),
        key_of(wire_id_of(session_id_of(raw), Direction::Up)) == key_of(
            wire_id_of(session_id_of(raw), Direction::Down),
        ),
{
    law_wire_id_round_trip(raw, Direction::Up);
    law_wire_id_round_trip(raw, Direction::Down);
}

/// Streams of sessions made from numbers that differ in their low 63 bits
/// never have a key in common.
pub proof fn law_sessions_stay_apart(raw1: u64, raw2: u64, d1: Direction, d2: Direction)
    requires
        raw1 % 0x8000_0000_0000_0000 != raw2 % 0x8000_0000_0000_0000,
    ensures
        key_of(wire_id_of(session_id_of(raw1), d1)) != key_of(wire_id_of(session_id_of(raw2), d2)),
{
    law_wire_id_round_trip(raw1, d1);
    law_wire_id_round_trip(raw2, d2);
}

/// An id on the wire is its key and its direction, and nothing else.
pub proof fn law_wire_id_is_key_and_direction(wire_id: u64)
    ensures
        wire_id == 2 * key_of(wire_id) + direction_of(wire_id).bit(),
{
}

/// How the numbers on the wire relate. A session id is even and holds, above its
/// lowest bit, the low 63 bits of the random number; the way up is announced by
/// the session id itself and the way down by the odd number next to it; an odd
/// number announces the way down and an even one the way up; and what is left
/// without the lowest bit is the key.
pub proof fn law_numbers_on_the_wire(raw: u64, id: u64, wire_id: u64, direction: Direction)
    ensures
        session_id_of(raw) % 2 == 0,
        session_id_of(raw) / 2 == raw % 0x8000_0000_0000_0000,
        wire_id_of(id, Direction::Up) == id,
        wire_id_of(id, Direction::Down) % 2 == 1,
        wire_id_of(id, Direction::Down) / 2 == id / 2,
        direction_of(wire_id) == Direction::Down <==> wire_id % 2 == 1,
        wire_id == 2 * key_of(wire_id) + wire_id % 2,
        direction.opposite() != direction,
        direction.bit() == 1 <==> direction == Direction::Down,
        direction.bit() == 0 <==> direction == Direction::Up,
{
    assert((2 * raw) % 0x1_0000_0000_0000_0000 == 2 * (raw % 0x8000_0000_0000_0000))
        by (bit_vector);
}

} // verus!
