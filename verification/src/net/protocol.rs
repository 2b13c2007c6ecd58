//! The game protocol that two players exchange through the relay.
//!
//! Every `f32` of a message travels as its IEEE-754 bit pattern, so a
//! message holds those patterns as `u32` values and the codec moves them
//! bit for bit.
use vstd::prelude::*;

use crate::le::{
    lemma_u32_bytes_of_value, lemma_u32_round_trip, lemma_u64_bytes_of_value,
    lemma_u64_round_trip, u32_at, u32_bytes, u32_to_le, u64_at, u64_bytes,
};
use crate::terrain::MapSize;

verus! {

pub const WELCOME: u8 = 1;
pub const AIM: u8 = 2;
pub const READY: u8 = 3;
pub const FIRE: u8 = 4;
pub const SHOT: u8 = 5;
pub const BALL: u8 = 6;
pub const IMPACT: u8 = 7;
pub const MISS: u8 = 8;
pub const TURN: u8 = 9;
pub const NEW_MATCH: u8 = 10;

#[derive(Clone, Debug, PartialEq)]
pub enum Msg {
    Welcome { seed: u64, size: MapSize },
    Aim { yaw: u32, elevation: u32, power: u32 },
    Ready,
    Fire { yaw: u32, elevation: u32, power: u32 },
    ShotFired { yaw: u32, elevation: u32, power: u32 },
    Ball { position: [u32; 3], velocity: [u32; 3] },
    Impact {
        point: [u32; 3],
        damage: [u32; 2],
        health: [u32; 2],
        cannon_y: [u32; 2],
        direct: bool,
    },
    Miss { cannon_y: [u32; 2] },
    Turn {
        active: usize,
        round: u32,
        wind: [u32; 3],
        health: [u32; 2],
        cannon_y: [u32; 2],
        winner: Option<Option<usize>>,
    },
    NewMatch { seed: u64, size: MapSize },
}

pub open spec fn size_code(size: MapSize) -> u8 {
    match size {
        MapSize::Small => 0,
        MapSize::Medium => 1,
        MapSize::Large => 2,
    }
}

/// The byte that stands for the outcome a turn message reports: still
/// playing, a draw, Red's win or Blue's win.
pub open spec fn winner_code(winner: Option<Option<usize>>) -> u8 {
    match winner {
        None => 0,
        Some(None) => 1,
        Some(Some(i)) => if i == 0 {
            2
        } else {
            3
        },
    }
}

pub open spec fn words(values: Seq<u32>) -> Seq<u8>
    decreases values.len(),
{
    if values.len() == 0 {
        seq![]
    } else {
        words(values.drop_last()) + u32_bytes(values.last())
    }
}

pub open spec fn aim_bytes(tag: u8, yaw: u32, elevation: u32, power: u32) -> Seq<u8> {
    seq![tag] + u32_bytes(yaw) + u32_bytes(elevation) + u32_bytes(power)
}

impl Msg {
    /// The bytes a message is sent as.
    pub open spec fn bytes(self) -> Seq<u8> {
        match self {
            Msg::Welcome { seed, size } => seq![WELCOME] + u64_bytes(seed) + seq![size_code(size)],
            Msg::Aim { yaw, elevation, power } => aim_bytes(AIM, yaw, elevation, power),
            Msg::Ready => seq![READY],
            Msg::Fire { yaw, elevation, power } => aim_bytes(FIRE, yaw, elevation, power),
            Msg::ShotFired { yaw, elevation, power } => aim_bytes(SHOT, yaw, elevation, power),
            Msg::Ball { position, velocity } => seq![BALL] + words(position@) + words(velocity@),
            Msg::Impact { point, damage, health, cannon_y, direct } => seq![IMPACT] + words(point@)
                + words(damage@) + words(health@) + words(cannon_y@) + seq![
                if direct {
                    1u8
                } else {
                    0u8
                },
            ],
            Msg::Miss { cannon_y } => seq![MISS] + words(cannon_y@),
            Msg::Turn { active, round, wind, health, cannon_y, winner } => seq![
                TURN,
                (active % 256) as u8,
            ] + u32_bytes(round) + words(wind@) + words(health@) + words(cannon_y@) + seq![
                winner_code(winner),
            ],
            Msg::NewMatch { seed, size } => seq![NEW_MATCH] + u64_bytes(seed) + seq![
                size_code(size),
            ],
        }
    }

    /// A message that the wire can carry unchanged: a seat index that fits
    /// in a byte and a winner that is Red or Blue.
    pub open spec fn fits_wire(self) -> bool {
        match self {
            Msg::Turn { active, winner, .. } => {
                &&& active < 256
                &&& (winner matches Some(Some(i)) ==> i < 2)
            },
            _ => true,
        }
    }
}

/// Every map size has its own byte, the bytes are 0, 1 and 2, and each
/// reads back as its size.
pub proof fn lemma_size_codes(a: MapSize, b: MapSize)
    ensures
        size_code(a) <= 2,
        size_of_code(size_code(a)) == Some(a),
        size_code(a) == size_code(b) ==> a == b,
        size_code(MapSize::Small) == 0 && size_code(MapSize::Medium) == 1 && size_code(
            MapSize::Large,
        ) == 2,
{
}

/// A value written as four bytes after any prefix is read back from the
/// place where it was written.
pub proof fn lemma_written_u32_reads_back(prefix: Seq<u8>, v: u32)
    ensures
        u32_at(prefix + u32_bytes(v), prefix.len() as int) == v,
{
    let s = prefix + u32_bytes(v);
    assert(s.subrange(prefix.len() as int, prefix.len() as int + 4) =~= u32_bytes(v));
    lemma_read_back(s, prefix.len() as int, v);
}

/// The same for eight-byte values.
pub proof fn lemma_written_u64_reads_back(prefix: Seq<u8>, v: u64)
    ensures
        u64_at(prefix + u64_bytes(v), prefix.len() as int) == v,
{
    let s = prefix + u64_bytes(v);
    assert(s.subrange(prefix.len() as int, prefix.len() as int + 8) =~= u64_bytes(v));
    lemma_read_back_u64(s, prefix.len() as int, v);
}

/// The length a message with a given tag has on the wire (zero for an
/// unknown tag).
pub open spec fn msg_len(tag: u8) -> int {
    if tag == WELCOME || tag == NEW_MATCH {
        10
    } else if tag == AIM || tag == FIRE || tag == SHOT {
        13
    } else if tag == READY {
        1
    } else if tag == BALL {
        25
    } else if tag == IMPACT {
        38
    } else if tag == MISS {
        9
    } else if tag == TURN {
        35
    } else {
        0
    }
}

/// Bytes that a reader accepts as a message: a known tag, the exact length
/// for it, a known map size and a known turn outcome.
pub open spec fn is_msg(b: Seq<u8>) -> bool {
    &&& b.len() > 0
    &&& msg_len(b[0]) > 0
    &&& b.len() == msg_len(b[0])
    &&& (b[0] == WELCOME || b[0] == NEW_MATCH) ==> b[9] < 3
    &&& b[0] == TURN ==> b[34] < 4
}

/// Accepted bytes with the hit flag of an impact written as 0 or 1; a
/// reader takes every nonzero flag for a direct hit.
pub open spec fn canonical(b: Seq<u8>) -> Seq<u8> {
    if b[0] == IMPACT && b[37] != 0 {
        b.update(37, 1u8)
    } else {
        b
    }
}

/// `m` is what a reader makes of the bytes `b`.
pub open spec fn read_as(b: Seq<u8>, m: Msg) -> bool {
    &&& is_msg(b)
    &&& m.fits_wire()
    &&& m.bytes() == canonical(b)
}

fn size_byte(size: MapSize) -> (r: u8)
    ensures
        r == size_code(size),
{
    match size {
        MapSize::Small => 0,
        MapSize::Medium => 1,
        MapSize::Large => 2,
    }
}

/// The map size a byte stands for: 0, 1 and 2 are Small, Medium and Large.
pub open spec fn size_of_code(byte: u8) -> Option<MapSize> {
    if byte == 0 {
        Some(MapSize::Small)
    } else if byte == 1 {
        Some(MapSize::Medium)
    } else if byte == 2 {
        Some(MapSize::Large)
    } else {
        None
    }
}

fn map_size(byte: u8) -> (r: Option<MapSize>)
    ensures
        r == size_of_code(byte),
        r is Some <==> byte < 3,
        r matches Some(size) ==> size_code(size) == byte,
{
    match byte {
        0 => Some(MapSize::Small),
        1 => Some(MapSize::Medium),
        2 => Some(MapSize::Large),
        _ => None,
    }
}

fn push_u32(out: &mut Vec<u8>, value: u32)
    ensures
        final(out)@ == old(out)@ + u32_bytes(value),
{
    let b = u32_to_le(value);
    out.push(b[0]);
    out.push(b[1]);
    out.push(b[2]);
    out.push(b[3]);
    assert(final(out)@ =~= old(out)@ + u32_bytes(value));
}

fn push_u64(out: &mut Vec<u8>, value: u64)
    ensures
        final(out)@ == old(out)@ + u64_bytes(value),
{
    let lo = (value & 0xffff_ffff) as u32;
    let hi = (value >> 32) as u32;
    assert(value & 0xffff_ffff == value % 0x1_0000_0000) by (bit_vector);
    assert(value >> 32 == value / 0x1_0000_0000) by (bit_vector);
    push_u32(out, lo);
    push_u32(out, hi);
    assert(final(out)@ =~= old(out)@ + u64_bytes(value));
}

fn push_vec3(out: &mut Vec<u8>, value: [u32; 3])
    ensures
        final(out)@ == old(out)@ + words(value@),
{
    push_u32(out, value[0]);
    push_u32(out, value[1]);
    push_u32(out, value[2]);
    reveal_with_fuel(words, 4);
    assert(value@.drop_last().drop_last().drop_last() =~= Seq::<u32>::empty());
    assert(value@.drop_last().drop_last() =~= seq![value@[0]]);
    assert(value@.drop_last() =~= seq![value@[0], value@[1]]);
    assert(final(out)@ =~= old(out)@ + words(value@));
}

fn push_pair(out: &mut Vec<u8>, value: [u32; 2])
    ensures
        final(out)@ == old(out)@ + words(value@),
{
    push_u32(out, value[0]);
    push_u32(out, value[1]);
    reveal_with_fuel(words, 3);
    assert(value@.drop_last().drop_last() =~= Seq::<u32>::empty());
    assert(value@.drop_last() =~= seq![value@[0]]);
    assert(final(out)@ =~= old(out)@ + words(value@));
}

fn take_u8(data: &[u8], i: &mut usize) -> (r: Option<u8>)
    ensures
        *old(i) < data@.len() ==> r == Some(data@[*old(i) as int]) && *final(i) == *old(i) + 1,
        *old(i) >= data@.len() ==> r is None && *final(i) == *old(i),
{
    if *i < data.len() {
        let value = data[*i];
        *i += 1;
        Some(value)
    } else {
        None
    }
}

fn take_u32(data: &[u8], i: &mut usize) -> (r: Option<u32>)
    requires
        *old(i) + 4 <= usize::MAX,
    ensures
        *old(i) + 4 <= data@.len() ==> r == Some(u32_at(data@, *old(i) as int)) && *final(i)
            == *old(i) + 4,
        *old(i) + 4 > data@.len() ==> r is None && *final(i) == *old(i),
{
    if *i + 4 <= data.len() {
        let at = *i;
        let value: u32 = data[at] as u32 + 0x100 * data[at + 1] as u32 + 0x1_0000 * data[at
            + 2] as u32 + 0x100_0000 * data[at + 3] as u32;
        *i += 4;
        Some(value)
    } else {
        None
    }
}

fn take_u64(data: &[u8], i: &mut usize) -> (r: Option<u64>)
    requires
        *old(i) + 8 <= usize::MAX,
    ensures
        *old(i) + 8 <= data@.len() ==> r == Some(u64_at(data@, *old(i) as int)) && *final(i)
            == *old(i) + 8,
        *old(i) + 8 > data@.len() ==> r is None && *final(i) == *old(i),
{
    if *i + 8 <= data.len() {
        let lo = take_u32(data, i).unwrap();
        let hi = take_u32(data, i).unwrap();
        Some(lo as u64 + 0x1_0000_0000 * hi as u64)
    } else {
        None
    }
}

fn take_vec3(data: &[u8], i: &mut usize) -> (r: Option<[u32; 3]>)
    requires
        *old(i) + 12 <= usize::MAX,
    ensures
        *old(i) + 12 <= data@.len() ==> (r matches Some(v) && v@ == seq![
            u32_at(data@, *old(i) as int),
            u32_at(data@, *old(i) + 4),
            u32_at(data@, *old(i) + 8),
        ] && *final(i) == *old(i) + 12),
        *old(i) + 12 > data@.len() ==> r is None && *final(i) == *old(i),
{
    if *i + 12 <= data.len() {
        let x = take_u32(data, i).unwrap();
        let y = take_u32(data, i).unwrap();
        let z = take_u32(data, i).unwrap();
        let v = [x, y, z];
        assert(v@ =~= seq![x, y, z]);
        Some(v)
    } else {
        None
    }
}

fn take_pair(data: &[u8], i: &mut usize) -> (r: Option<[u32; 2]>)
    requires
        *old(i) + 8 <= usize::MAX,
    ensures
        *old(i) + 8 <= data@.len() ==> (r matches Some(v) && v@ == seq![
            u32_at(data@, *old(i) as int),
            u32_at(data@, *old(i) + 4),
        ] && *final(i) == *old(i) + 8),
        *old(i) + 8 > data@.len() ==> r is None && *final(i) == *old(i),
{
    if *i + 8 <= data.len() {
        let x = take_u32(data, i).unwrap();
        let y = take_u32(data, i).unwrap();
        let v = [x, y];
        assert(v@ =~= seq![x, y]);
        Some(v)
    } else {
        None
    }
}

/// The bytes that three values, read at `at`, are written back as are the
/// bytes they were read from.
proof fn lemma_words3_of_values(b: Seq<u8>, at: int)
    requires
        0 <= at,
        at + 12 <= b.len(),
    ensures
        words(seq![u32_at(b, at), u32_at(b, at + 4), u32_at(b, at + 8)]) == b.subrange(at, at + 12),
{
    let v = seq![u32_at(b, at), u32_at(b, at + 4), u32_at(b, at + 8)];
    lemma_u32_bytes_of_value(b, at);
    lemma_u32_bytes_of_value(b, at + 4);
    lemma_u32_bytes_of_value(b, at + 8);
    reveal_with_fuel(words, 4);
    assert(v.drop_last().drop_last().drop_last() =~= Seq::<u32>::empty());
    assert(v.drop_last().drop_last() =~= seq![v[0]]);
    assert(v.drop_last() =~= seq![v[0], v[1]]);
    assert(words(v) =~= b.subrange(at, at + 12));
}

proof fn lemma_words2_of_values(b: Seq<u8>, at: int)
    requires
        0 <= at,
        at + 8 <= b.len(),
    ensures
        words(seq![u32_at(b, at), u32_at(b, at + 4)]) == b.subrange(at, at + 8),
{
    let v = seq![u32_at(b, at), u32_at(b, at + 4)];
    lemma_u32_bytes_of_value(b, at);
    lemma_u32_bytes_of_value(b, at + 4);
    reveal_with_fuel(words, 3);
    assert(v.drop_last().drop_last() =~= Seq::<u32>::empty());
    assert(v.drop_last() =~= seq![v[0]]);
    assert(words(v) =~= b.subrange(at, at + 8));
}

impl Msg {
    pub fn encode(&self) -> (r: Vec<u8>)
        ensures
            r@ == self.bytes(),
    {
        let mut out: Vec<u8> = Vec::new();
        match self {
            Msg::Welcome { seed, size } => {
                out.push(WELCOME);
                push_u64(&mut out, *seed);
                out.push(size_byte(*size));
            },
            Msg::Aim { yaw, elevation, power } => {
                out.push(AIM);
                push_u32(&mut out, *yaw);
                push_u32(&mut out, *elevation);
                push_u32(&mut out, *power);
            },
            Msg::Ready => out.push(READY),
            Msg::Fire { yaw, elevation, power } => {
                out.push(FIRE);
                push_u32(&mut out, *yaw);
                push_u32(&mut out, *elevation);
                push_u32(&mut out, *power);
            },
            Msg::ShotFired { yaw, elevation, power } => {
                out.push(SHOT);
                push_u32(&mut out, *yaw);
                push_u32(&mut out, *elevation);
                push_u32(&mut out, *power);
            },
            Msg::Ball { position, velocity } => {
                out.push(BALL);
                push_vec3(&mut out, *position);
                push_vec3(&mut out, *velocity);
            },
            Msg::Impact { point, damage, health, cannon_y, direct } => {
                out.push(IMPACT);
                push_vec3(&mut out, *point);
                push_pair(&mut out, *damage);
                push_pair(&mut out, *health);
                push_pair(&mut out, *cannon_y);
                out.push(
                    if *direct {
                        1
                    } else {
                        0
                    },
                );
            },
            Msg::Miss { cannon_y } => {
                out.push(MISS);
                push_pair(&mut out, *cannon_y);
            },
            Msg::Turn { active, round, wind, health, cannon_y, winner } => {
                out.push(TURN);
                out.push((*active % 256) as u8);
                push_u32(&mut out, *round);
                push_vec3(&mut out, *wind);
                push_pair(&mut out, *health);
                push_pair(&mut out, *cannon_y);
                out.push(
                    match winner {
                        None => 0,
                        Some(None) => 1,
                        Some(Some(0)) => 2,
                        Some(Some(_)) => 3,
                    },
                );
            },
            Msg::NewMatch { seed, size } => {
                out.push(NEW_MATCH);
                push_u64(&mut out, *seed);
                out.push(size_byte(*size));
            },
        }
        assert(out@ =~= self.bytes());
        out
    }

    #[verifier::rlimit(50)]
    #[verifier::spinoff_prover]
    /// Reads a message; bytes of an unknown kind, of the wrong length or
    /// with an unknown map size or turn outcome are refused.
    pub fn decode(bytes: &[u8]) -> (r: Option<Msg>)
        ensures
            r is Some <==> is_msg(bytes@),
            r matches Some(m) ==> read_as(bytes@, m),
    {
        let ghost b = bytes@;
        let mut i: usize = 0;
        let tag = take_u8(bytes, &mut i)?;
        let msg = if tag == WELCOME || tag == NEW_MATCH {
            let seed = take_u64(bytes, &mut i)?;
            let size = map_size(take_u8(bytes, &mut i)?)?;
            if i != bytes.len() {
                return None;
            }
            proof {
                lemma_u64_bytes_of_value(b, 1);
                assert(b =~= seq![tag] + b.subrange(1, 9) + seq![b[9]]);
            }
            if tag == WELCOME {
                Msg::Welcome { seed, size }
            } else {
                Msg::NewMatch { seed, size }
            }
        } else if tag == AIM || tag == FIRE || tag == SHOT {
            let yaw = take_u32(bytes, &mut i)?;
            let elevation = take_u32(bytes, &mut i)?;
            let power = take_u32(bytes, &mut i)?;
            if i != bytes.len() {
                return None;
            }
            proof {
                lemma_u32_bytes_of_value(b, 1);
                lemma_u32_bytes_of_value(b, 5);
                lemma_u32_bytes_of_value(b, 9);
                assert(b =~= seq![tag] + b.subrange(1, 5) + b.subrange(5, 9) + b.subrange(9, 13));
            }
            if tag == AIM {
                Msg::Aim { yaw, elevation, power }
            } else if tag == FIRE {
                Msg::Fire { yaw, elevation, power }
            } else {
                Msg::ShotFired { yaw, elevation, power }
            }
        } else if tag == READY {
            if i != bytes.len() {
                return None;
            }
            assert(b =~= seq![READY]);
            Msg::Ready
        } else if tag == BALL {
            let position = take_vec3(bytes, &mut i)?;
            let velocity = take_vec3(bytes, &mut i)?;
            if i != bytes.len() {
                return None;
            }
            proof {
                lemma_words3_of_values(b, 1);
                lemma_words3_of_values(b, 13);
                assert(b =~= seq![tag] + b.subrange(1, 13) + b.subrange(13, 25));
            }
            Msg::Ball { position, velocity }
        } else if tag == IMPACT {
            let point = take_vec3(bytes, &mut i)?;
            let damage = take_pair(bytes, &mut i)?;
            let health = take_pair(bytes, &mut i)?;
            let cannon_y = take_pair(bytes, &mut i)?;
            let direct = take_u8(bytes, &mut i)? != 0;
            if i != bytes.len() {
                return None;
            }
            let m = Msg::Impact { point, damage, health, cannon_y, direct };
            proof {
                lemma_words3_of_values(b, 1);
                lemma_words2_of_values(b, 13);
                lemma_words2_of_values(b, 21);
                lemma_words2_of_values(b, 29);
                assert(m.bytes() =~= canonical(b));
            }
            m
        } else if tag == MISS {
            let cannon_y = take_pair(bytes, &mut i)?;
            if i != bytes.len() {
                return None;
            }
            proof {
                lemma_words2_of_values(b, 1);
                assert(b =~= seq![tag] + b.subrange(1, 9));
            }
            Msg::Miss { cannon_y }
        } else if tag == TURN {
            let active = take_u8(bytes, &mut i)? as usize;
            let round = take_u32(bytes, &mut i)?;
            let wind = take_vec3(bytes, &mut i)?;
            let health = take_pair(bytes, &mut i)?;
            let cannon_y = take_pair(bytes, &mut i)?;
            let winner = match take_u8(bytes, &mut i)? {
                0 => None,
                1 => Some(None),
                2 => Some(Some(0)),
                3 => Some(Some(1)),
                _ => return None,
            };
            if i != bytes.len() {
                return None;
            }
            let m = Msg::Turn { active, round, wind, health, cannon_y, winner };
            proof {
                lemma_u32_bytes_of_value(b, 2);
                lemma_words3_of_values(b, 6);
                lemma_words2_of_values(b, 18);
                lemma_words2_of_values(b, 26);
                assert(m.bytes() =~= b);
            }
            m
        } else {
            return None;
        };
        Some(msg)
    }
}

proof fn lemma_read_back(s: Seq<u8>, at: int, v: u32)
    requires
        0 <= at,
        at + 4 <= s.len(),
        s.subrange(at, at + 4) == u32_bytes(v),
    ensures
        u32_at(s, at) == v,
{
    lemma_u32_round_trip(v);
    let t = s.subrange(at, at + 4);
    assert(u32_at(s, at) == u32_at(t, 0));
}

proof fn lemma_read_back_u64(s: Seq<u8>, at: int, v: u64)
    requires
        0 <= at,
        at + 8 <= s.len(),
        s.subrange(at, at + 8) == u64_bytes(v),
    ensures
        u64_at(s, at) == v,
{
    lemma_u64_round_trip(v);
    let t = s.subrange(at, at + 8);
    assert(u32_at(s, at) == u32_at(t, 0));
    assert(u32_at(s, at + 4) == u32_at(t, 4));
}

proof fn lemma_words3_shape(v: Seq<u32>)
    requires
        v.len() == 3,
    ensures
        words(v) == u32_bytes(v[0]) + u32_bytes(v[1]) + u32_bytes(v[2]),
        words(v).len() == 12,
{
    reveal_with_fuel(words, 4);
    assert(v.drop_last().drop_last().drop_last() =~= Seq::<u32>::empty());
    assert(v.drop_last().drop_last() =~= seq![v[0]]);
    assert(v.drop_last() =~= seq![v[0], v[1]]);
    assert(words(v) =~= u32_bytes(v[0]) + u32_bytes(v[1]) + u32_bytes(v[2]));
}

proof fn lemma_words2_shape(v: Seq<u32>)
    requires
        v.len() == 2,
    ensures
        words(v) == u32_bytes(v[0]) + u32_bytes(v[1]),
        words(v).len() == 8,
{
    reveal_with_fuel(words, 3);
    assert(v.drop_last().drop_last() =~= Seq::<u32>::empty());
    assert(v.drop_last() =~= seq![v[0]]);
    assert(words(v) =~= u32_bytes(v[0]) + u32_bytes(v[1]));
}

/// The values of three words found at `at` in `s`.
proof fn lemma_read_words3(s: Seq<u8>, at: int, v: Seq<u32>)
    requires
        v.len() == 3,
        0 <= at,
        at + 12 <= s.len(),
        s.subrange(at, at + 12) == words(v),
    ensures
        v == seq![u32_at(s, at), u32_at(s, at + 4), u32_at(s, at + 8)],
{
    lemma_words3_shape(v);
    let w = words(v);
    assert(w.subrange(0, 4) =~= u32_bytes(v[0]));
    assert(w.subrange(4, 8) =~= u32_bytes(v[1]));
    assert(w.subrange(8, 12) =~= u32_bytes(v[2]));
    assert(s.subrange(at, at + 4) =~= w.subrange(0, 4));
    assert(s.subrange(at + 4, at + 8) =~= w.subrange(4, 8));
    assert(s.subrange(at + 8, at + 12) =~= w.subrange(8, 12));
    lemma_read_back(s, at, v[0]);
    lemma_read_back(s, at + 4, v[1]);
    lemma_read_back(s, at + 8, v[2]);
    assert(v =~= seq![u32_at(s, at), u32_at(s, at + 4), u32_at(s, at + 8)]);
}

proof fn lemma_read_words2(s: Seq<u8>, at: int, v: Seq<u32>)
    requires
        v.len() == 2,
        0 <= at,
        at + 8 <= s.len(),
        s.subrange(at, at + 8) == words(v),
    ensures
        v == seq![u32_at(s, at), u32_at(s, at + 4)],
{
    lemma_words2_shape(v);
    let w = words(v);
    assert(w.subrange(0, 4) =~= u32_bytes(v[0]));
    assert(w.subrange(4, 8) =~= u32_bytes(v[1]));
    assert(s.subrange(at, at + 4) =~= w.subrange(0, 4));
    assert(s.subrange(at + 4, at + 8) =~= w.subrange(4, 8));
    lemma_read_back(s, at, v[0]);
    lemma_read_back(s, at + 4, v[1]);
    assert(v =~= seq![u32_at(s, at), u32_at(s, at + 4)]);
}

proof fn lemma_seed_layout(tag: u8, seed: u64, size: MapSize)
    ensures
        ({
            let b = seq![tag] + u64_bytes(seed) + seq![size_code(size)];
            b.len() == 10 && b[0] == tag && seed == u64_at(b, 1) && b[9] == size_code(size)
        }),
{
    let b = seq![tag] + u64_bytes(seed) + seq![size_code(size)];
    assert(b.subrange(1, 9) =~= u64_bytes(seed));
    lemma_read_back_u64(b, 1, seed);
}

proof fn lemma_aim_layout(tag: u8, yaw: u32, elevation: u32, power: u32)
    ensures
        ({
            let b = aim_bytes(tag, yaw, elevation, power);
            b.len() == 13 && b[0] == tag && yaw == u32_at(b, 1) && elevation == u32_at(b, 5)
                && power == u32_at(b, 9)
        }),
{
    let b = aim_bytes(tag, yaw, elevation, power);
    assert(b.subrange(1, 5) =~= u32_bytes(yaw));
    assert(b.subrange(5, 9) =~= u32_bytes(elevation));
    assert(b.subrange(9, 13) =~= u32_bytes(power));
    lemma_read_back(b, 1, yaw);
    lemma_read_back(b, 5, elevation);
    lemma_read_back(b, 9, power);
}

proof fn lemma_ball_layout(position: [u32; 3], velocity: [u32; 3])
    ensures
        ({
            let b = seq![BALL] + words(position@) + words(velocity@);
            b.len() == 25 && position@ == seq![u32_at(b, 1), u32_at(b, 5), u32_at(b, 9)]
                && velocity@ == seq![u32_at(b, 13), u32_at(b, 17), u32_at(b, 21)]
        }),
{
    let b = seq![BALL] + words(position@) + words(velocity@);
    lemma_words3_shape(position@);
    lemma_words3_shape(velocity@);
    assert(b.subrange(1, 13) =~= words(position@));
    assert(b.subrange(13, 25) =~= words(velocity@));
    lemma_read_words3(b, 1, position@);
    lemma_read_words3(b, 13, velocity@);
}

proof fn lemma_impact_layout(
    point: [u32; 3],
    damage: [u32; 2],
    health: [u32; 2],
    cannon_y: [u32; 2],
    flag: u8,
)
    ensures
        ({
            let b = seq![IMPACT] + words(point@) + words(damage@) + words(health@) + words(
                cannon_y@,
            ) + seq![flag];
            &&& b.len() == 38
            &&& b[37] == flag
            &&& point@ == seq![u32_at(b, 1), u32_at(b, 5), u32_at(b, 9)]
            &&& damage@ == seq![u32_at(b, 13), u32_at(b, 17)]
            &&& health@ == seq![u32_at(b, 21), u32_at(b, 25)]
            &&& cannon_y@ == seq![u32_at(b, 29), u32_at(b, 33)]
        }),
{
    let b = seq![IMPACT] + words(point@) + words(damage@) + words(health@) + words(cannon_y@)
        + seq![flag];
    lemma_words3_shape(point@);
    lemma_words2_shape(damage@);
    lemma_words2_shape(health@);
    lemma_words2_shape(cannon_y@);
    assert(b.subrange(1, 13) =~= words(point@));
    assert(b.subrange(13, 21) =~= words(damage@));
    assert(b.subrange(21, 29) =~= words(health@));
    assert(b.subrange(29, 37) =~= words(cannon_y@));
    lemma_read_words3(b, 1, point@);
    lemma_read_words2(b, 13, damage@);
    lemma_read_words2(b, 21, health@);
    lemma_read_words2(b, 29, cannon_y@);
}

proof fn lemma_miss_layout(cannon_y: [u32; 2])
    ensures
        ({
            let b = seq![MISS] + words(cannon_y@);
            b.len() == 9 && cannon_y@ == seq![u32_at(b, 1), u32_at(b, 5)]
        }),
{
    let b = seq![MISS] + words(cannon_y@);
    lemma_words2_shape(cannon_y@);
    assert(b.subrange(1, 9) =~= words(cannon_y@));
    lemma_read_words2(b, 1, cannon_y@);
}

proof fn lemma_turn_layout(
    seat: u8,
    round: u32,
    wind: [u32; 3],
    health: [u32; 2],
    cannon_y: [u32; 2],
    outcome: u8,
)
    ensures
        ({
            let b = seq![TURN, seat] + u32_bytes(round) + words(wind@) + words(health@) + words(
                cannon_y@,
            ) + seq![outcome];
            &&& b.len() == 35
            &&& b[1] == seat
            &&& b[34] == outcome
            &&& round == u32_at(b, 2)
            &&& wind@ == seq![u32_at(b, 6), u32_at(b, 10), u32_at(b, 14)]
            &&& health@ == seq![u32_at(b, 18), u32_at(b, 22)]
            &&& cannon_y@ == seq![u32_at(b, 26), u32_at(b, 30)]
        }),
{
    let b = seq![TURN, seat] + u32_bytes(round) + words(wind@) + words(health@) + words(cannon_y@)
        + seq![outcome];
    lemma_words3_shape(wind@);
    lemma_words2_shape(health@);
    lemma_words2_shape(cannon_y@);
    assert(b.subrange(2, 6) =~= u32_bytes(round));
    assert(b.subrange(6, 18) =~= words(wind@));
    assert(b.subrange(18, 26) =~= words(health@));
    assert(b.subrange(26, 34) =~= words(cannon_y@));
    lemma_read_back(b, 2, round);
    lemma_read_words3(b, 6, wind@);
    lemma_read_words2(b, 18, health@);
    lemma_read_words2(b, 26, cannon_y@);
}

/// Where each field of a message stands in its bytes.
#[verifier::rlimit(50)]
#[verifier::spinoff_prover]
proof fn lemma_fields_in_bytes(m: Msg)
    requires
        m.fits_wire(),
    ensures
        is_msg(m.bytes()),
        canonical(m.bytes()) == m.bytes(),
        match m {
            Msg::Welcome { seed, size } => seed == u64_at(m.bytes(), 1) && size_code(size)
                == m.bytes()[9],
            Msg::NewMatch { seed, size } => seed == u64_at(m.bytes(), 1) && size_code(size)
                == m.bytes()[9],
            Msg::Aim { yaw, elevation, power } => yaw == u32_at(m.bytes(), 1) && elevation
                == u32_at(m.bytes(), 5) && power == u32_at(m.bytes(), 9),
            Msg::Fire { yaw, elevation, power } => yaw == u32_at(m.bytes(), 1) && elevation
                == u32_at(m.bytes(), 5) && power == u32_at(m.bytes(), 9),
            Msg::ShotFired { yaw, elevation, power } => yaw == u32_at(m.bytes(), 1) && elevation
                == u32_at(m.bytes(), 5) && power == u32_at(m.bytes(), 9),
            Msg::Ready => true,
            Msg::Ball { position, velocity } => position@ == seq![
                u32_at(m.bytes(), 1),
                u32_at(m.bytes(), 5),
                u32_at(m.bytes(), 9),
            ] && velocity@ == seq![
                u32_at(m.bytes(), 13),
                u32_at(m.bytes(), 17),
                u32_at(m.bytes(), 21),
            ],
            Msg::Impact { point, damage, health, cannon_y, direct } => point@ == seq![
                u32_at(m.bytes(), 1),
                u32_at(m.bytes(), 5),
                u32_at(m.bytes(), 9),
            ] && damage@ == seq![u32_at(m.bytes(), 13), u32_at(m.bytes(), 17)] && health@
                == seq![u32_at(m.bytes(), 21), u32_at(m.bytes(), 25)] && cannon_y@ == seq![
                u32_at(m.bytes(), 29),
                u32_at(m.bytes(), 33),
            ] && direct == (m.bytes()[37] != 0),
            Msg::Miss { cannon_y } => cannon_y@ == seq![u32_at(m.bytes(), 1), u32_at(m.bytes(), 5)],
            Msg::Turn { active, round, wind, health, cannon_y, winner } => active == m.bytes()[1]
                && round == u32_at(m.bytes(), 2) && wind@ == seq![
                u32_at(m.bytes(), 6),
                u32_at(m.bytes(), 10),
                u32_at(m.bytes(), 14),
            ] && health@ == seq![u32_at(m.bytes(), 18), u32_at(m.bytes(), 22)] && cannon_y@
                == seq![u32_at(m.bytes(), 26), u32_at(m.bytes(), 30)] && winner_code(winner)
                == m.bytes()[34],
        },
{
    let b = m.bytes();
    match m {
        Msg::Welcome { seed, size } => lemma_seed_layout(WELCOME, seed, size),
        Msg::NewMatch { seed, size } => lemma_seed_layout(NEW_MATCH, seed, size),
        Msg::Aim { yaw, elevation, power } => lemma_aim_layout(AIM, yaw, elevation, power),
        Msg::Fire { yaw, elevation, power } => lemma_aim_layout(FIRE, yaw, elevation, power),
        Msg::ShotFired { yaw, elevation, power } => lemma_aim_layout(SHOT, yaw, elevation, power),
        Msg::Ready => {},
        Msg::Ball { position, velocity } => lemma_ball_layout(position, velocity),
        Msg::Impact { point, damage, health, cannon_y, direct } => {
            let flag: u8 = if direct {
                1
            } else {
                0
            };
            lemma_impact_layout(point, damage, health, cannon_y, flag);
            assert(canonical(b) =~= b);
        },
        Msg::Miss { cannon_y } => lemma_miss_layout(cannon_y),
        Msg::Turn { active, round, wind, health, cannon_y, winner } => lemma_turn_layout(
            (active % 256) as u8,
            round,
            wind,
            health,
            cannon_y,
            winner_code(winner),
        ),
    }
}

/// Every message that fits the wire is read back as itself from the bytes
/// it is sent as.
pub proof fn lemma_msg_round_trip(m: Msg)
    requires
        m.fits_wire(),
    ensures
        read_as(m.bytes(), m),
{
    lemma_fields_in_bytes(m);
}

proof fn lemma_seed_msgs_agree(tag: u8, s1: u64, z1: MapSize, s2: u64, z2: MapSize)
    requires
        seq![tag] + u64_bytes(s1) + seq![size_code(z1)] == seq![tag] + u64_bytes(s2) + seq![
            size_code(z2),
        ],
    ensures
        s1 == s2 && z1 == z2,
{
    lemma_seed_layout(tag, s1, z1);
    lemma_seed_layout(tag, s2, z2);
}

proof fn lemma_aim_msgs_agree(tag: u8, y1: u32, e1: u32, p1: u32, y2: u32, e2: u32, p2: u32)
    requires
        aim_bytes(tag, y1, e1, p1) == aim_bytes(tag, y2, e2, p2),
    ensures
        y1 == y2 && e1 == e2 && p1 == p2,
{
    lemma_aim_layout(tag, y1, e1, p1);
    lemma_aim_layout(tag, y2, e2, p2);
}

proof fn lemma_ball_msgs_agree(p1: [u32; 3], v1: [u32; 3], p2: [u32; 3], v2: [u32; 3])
    requires
        seq![BALL] + words(p1@) + words(v1@) == seq![BALL] + words(p2@) + words(v2@),
    ensures
        p1 == p2 && v1 == v2,
{
    lemma_ball_layout(p1, v1);
    lemma_ball_layout(p2, v2);
    assert(p1@ == p2@ && v1@ == v2@);
}

proof fn lemma_impact_msgs_agree(
    a1: [u32; 3],
    b1: [u32; 2],
    c1: [u32; 2],
    d1: [u32; 2],
    f1: u8,
    a2: [u32; 3],
    b2: [u32; 2],
    c2: [u32; 2],
    d2: [u32; 2],
    f2: u8,
)
    requires
        seq![IMPACT] + words(a1@) + words(b1@) + words(c1@) + words(d1@) + seq![f1] == seq![
            IMPACT,
        ] + words(a2@) + words(b2@) + words(c2@) + words(d2@) + seq![f2],
    ensures
        a1 == a2 && b1 == b2 && c1 == c2 && d1 == d2 && f1 == f2,
{
    lemma_impact_layout(a1, b1, c1, d1, f1);
    lemma_impact_layout(a2, b2, c2, d2, f2);
    assert(a1@ == a2@ && b1@ == b2@ && c1@ == c2@ && d1@ == d2@);
}

proof fn lemma_miss_msgs_agree(y1: [u32; 2], y2: [u32; 2])
    requires
        seq![MISS] + words(y1@) == seq![MISS] + words(y2@),
    ensures
        y1 == y2,
{
    lemma_miss_layout(y1);
    lemma_miss_layout(y2);
    assert(y1@ == y2@);
}

proof fn lemma_turn_msgs_agree(
    s1: u8,
    r1: u32,
    w1: [u32; 3],
    h1: [u32; 2],
    y1: [u32; 2],
    o1: u8,
    s2: u8,
    r2: u32,
    w2: [u32; 3],
    h2: [u32; 2],
    y2: [u32; 2],
    o2: u8,
)
    requires
        seq![TURN, s1] + u32_bytes(r1) + words(w1@) + words(h1@) + words(y1@) + seq![o1] == seq![
            TURN,
            s2,
        ] + u32_bytes(r2) + words(w2@) + words(h2@) + words(y2@) + seq![o2],
    ensures
        s1 == s2 && r1 == r2 && w1 == w2 && h1 == h2 && y1 == y2 && o1 == o2,
{
    lemma_turn_layout(s1, r1, w1, h1, y1, o1);
    lemma_turn_layout(s2, r2, w2, h2, y2, o2);
    assert(w1@ == w2@ && h1@ == h2@ && y1@ == y2@);
}

impl Msg {
    pub open spec fn tag(self) -> u8 {
        match self {
            Msg::Welcome { .. } => WELCOME,
            Msg::Aim { .. } => AIM,
            Msg::Ready => READY,
            Msg::Fire { .. } => FIRE,
            Msg::ShotFired { .. } => SHOT,
            Msg::Ball { .. } => BALL,
            Msg::Impact { .. } => IMPACT,
            Msg::Miss { .. } => MISS,
            Msg::Turn { .. } => TURN,
            Msg::NewMatch { .. } => NEW_MATCH,
        }
    }
}

proof fn lemma_tag_leads(m: Msg)
    ensures
        m.bytes().len() >= 1,
        m.bytes()[0] == m.tag(),
{
    match m {
        Msg::Welcome { seed, size } => lemma_seed_layout(WELCOME, seed, size),
        Msg::NewMatch { seed, size } => lemma_seed_layout(NEW_MATCH, seed, size),
        Msg::Aim { yaw, elevation, power } => lemma_aim_layout(AIM, yaw, elevation, power),
        Msg::Fire { yaw, elevation, power } => lemma_aim_layout(FIRE, yaw, elevation, power),
        Msg::ShotFired { yaw, elevation, power } => lemma_aim_layout(SHOT, yaw, elevation, power),
        Msg::Ready => {},
        Msg::Ball { position, velocity } => lemma_ball_layout(position, velocity),
        Msg::Impact { point, damage, health, cannon_y, direct } => {
            let flag: u8 = if direct {
                1
            } else {
                0
            };
            lemma_impact_layout(point, damage, health, cannon_y, flag);
        },
        Msg::Miss { cannon_y } => lemma_miss_layout(cannon_y),
        Msg::Turn { active, round, wind, health, cannon_y, winner } => lemma_turn_layout(
            (active % 256) as u8,
            round,
            wind,
            health,
            cannon_y,
            winner_code(winner),
        ),
    }
}

/// A reader makes one message, and no other, of a given sequence of bytes.
pub proof fn lemma_read_as_unique(b: Seq<u8>, m1: Msg, m2: Msg)
    requires
        read_as(b, m1),
        read_as(b, m2),
    ensures
        m1 == m2,
{
    assert(m1.bytes() == m2.bytes());
    lemma_tag_leads(m1);
    lemma_tag_leads(m2);
    assert(m1.tag() == m2.tag());
    match m1 {
        Msg::Welcome { seed, size } => {
            if let Msg::Welcome { seed: s2, size: z2 } = m2 {
                lemma_seed_msgs_agree(WELCOME, seed, size, s2, z2);
            }
        },
        Msg::NewMatch { seed, size } => {
            if let Msg::NewMatch { seed: s2, size: z2 } = m2 {
                lemma_seed_msgs_agree(NEW_MATCH, seed, size, s2, z2);
            }
        },
        Msg::Aim { yaw, elevation, power } => {
            if let Msg::Aim { yaw: y2, elevation: e2, power: p2 } = m2 {
                lemma_aim_msgs_agree(AIM, yaw, elevation, power, y2, e2, p2);
            }
        },
        Msg::Fire { yaw, elevation, power } => {
            if let Msg::Fire { yaw: y2, elevation: e2, power: p2 } = m2 {
                lemma_aim_msgs_agree(FIRE, yaw, elevation, power, y2, e2, p2);
            }
        },
        Msg::ShotFired { yaw, elevation, power } => {
            if let Msg::ShotFired { yaw: y2, elevation: e2, power: p2 } = m2 {
                lemma_aim_msgs_agree(SHOT, yaw, elevation, power, y2, e2, p2);
            }
        },
        Msg::Ready => {},
        Msg::Ball { position, velocity } => {
            if let Msg::Ball { position: p2, velocity: v2 } = m2 {
                lemma_ball_msgs_agree(position, velocity, p2, v2);
            }
        },
        Msg::Impact { point, damage, health, cannon_y, direct } => {
            if let Msg::Impact { point: p2, damage: d2, health: h2, cannon_y: y2, direct: f2 } = m2 {
                let flag1: u8 = if direct {
                    1
                } else {
                    0
                };
                let flag2: u8 = if f2 {
                    1
                } else {
                    0
                };
                lemma_impact_msgs_agree(point, damage, health, cannon_y, flag1, p2, d2, h2, y2, flag2);
            }
        },
        Msg::Miss { cannon_y } => {
            if let Msg::Miss { cannon_y: y2 } = m2 {
                lemma_miss_msgs_agree(cannon_y, y2);
            }
        },
        Msg::Turn { active, round, wind, health, cannon_y, winner } => {
            if let Msg::Turn { active: a2, round: r2, wind: w2, health: h2, cannon_y: y2, winner: o2 } =
                m2 {
                lemma_turn_msgs_agree(
                    (active % 256) as u8,
                    round,
                    wind,
                    health,
                    cannon_y,
                    winner_code(winner),
                    (a2 % 256) as u8,
                    r2,
                    w2,
                    h2,
                    y2,
                    winner_code(o2),
                );
            }
        },
    }
}

} // verus!
