//! Relay wire format: room codes, the hello frame, error codes and the
//! length-prefixed framing of every message.
use vstd::prelude::*;

use vstd::string::StringSliceAdditionalSpecFns;

use crate::le::{u32_at, u32_bytes, u32_to_le};

verus! {

/// Largest payload a frame may carry.
pub const MAX_FRAME: usize = 4096;

/// Number of characters a room code may use.
pub const ALPHABET_LEN: usize = 32;

pub const HOST: u8 = 72;
pub const GUEST: u8 = 71;
pub const JOINED: u8 = 89;
pub const ERROR: u8 = 69;
pub const PEER_JOINED: u8 = 43;
pub const PEER_LEFT: u8 = 45;
pub const PING: u8 = 80;
pub const PONG: u8 = 81;

pub const ERR_EXISTS: u8 = 1;
pub const ERR_MISSING: u8 = 2;
pub const ERR_FULL: u8 = 3;
pub const ERR_BAD: u8 = 4;
pub const ERR_BUSY: u8 = 5;

/// The characters of a room code: the digits 2 to 9 and the capital
/// letters but I and O, so that no two of them are easily confused.
pub open spec fn is_code_byte(b: u8) -> bool {
    (50 <= b <= 57) || (65 <= b <= 90 && b != 73 && b != 79)
}

/// The `i`-th character of the room-code alphabet "23456789ABCDEFGHJKLMNPQRSTUVWXYZ".
pub open spec fn alphabet_at(i: int) -> u8 {
    if i < 8 {
        (50 + i) as u8
    } else if i < 16 {
        (65 + (i - 8)) as u8
    } else if i < 21 {
        (74 + (i - 16)) as u8
    } else {
        (80 + (i - 21)) as u8
    }
}

/// The room-code alphabet as text.
pub open spec fn code_alphabet() -> Seq<char> {
    "23456789ABCDEFGHJKLMNPQRSTUVWXYZ"@
}

/// Whether byte `b` is one of the characters of the alphabet text.
pub open spec fn in_code_alphabet(b: u8) -> bool {
    exists|j: int| 0 <= j < code_alphabet().len() && code_alphabet()[j] == b as char
}

/// `alphabet_at` spells out the alphabet text, character by character.
pub proof fn lemma_alphabet_spells(i: int)
    requires
        0 <= i < 32,
    ensures
        code_alphabet().len() == ALPHABET_LEN,
        alphabet_at(i) as char == code_alphabet()[i],
{
    reveal_strlit("23456789ABCDEFGHJKLMNPQRSTUVWXYZ");
}

/// A byte may stand in a room code exactly when it is a character of the
/// alphabet text: the digits 2 to 9 and the capital letters but I and O.
pub proof fn lemma_code_bytes_are_the_alphabet(b: u8)
    ensures
        is_code_byte(b) <==> in_code_alphabet(b),
        is_code_byte(b) <==> exists|j: int| 0 <= j < 32 && #[trigger] alphabet_at(j) == b,
{
    lemma_alphabet_spells(0);
    if is_code_byte(b) {
        let j: int = if b <= 57 {
            b - 50
        } else if b <= 72 {
            b - 57
        } else if b <= 78 {
            b - 58
        } else {
            b - 59
        };
        lemma_alphabet_spells(j);
        assert(alphabet_at(j) == b);
        assert(code_alphabet()[j] == b as char);
    }
    if in_code_alphabet(b) {
        let j = choose|j: int| 0 <= j < code_alphabet().len() && code_alphabet()[j] == b as char;
        lemma_alphabet_spells(j);
        assert(alphabet_at(j) == b);
    }
    if exists|j: int| 0 <= j < 32 && #[trigger] alphabet_at(j) == b {
        let j = choose|j: int| 0 <= j < 32 && #[trigger] alphabet_at(j) == b;
        assert(alphabet_at(j) == b);
    }
}

/// Four bytes that all belong to the alphabet.
pub open spec fn is_code(s: Seq<u8>) -> bool {
    &&& s.len() == 4
    &&& forall|i: int| 0 <= i < 4 ==> is_code_byte(#[trigger] s[i])
}

/// ASCII whitespace as `u8::is_ascii_whitespace` defines it: space, tab,
/// line feed, form feed and carriage return.
pub open spec fn is_ascii_space(b: u8) -> bool {
    b == 32 || b == 9 || b == 10 || b == 12 || b == 13
}

/// `u8::to_ascii_uppercase`: lower-case ASCII letters become capitals.
pub open spec fn ascii_upper(b: u8) -> u8 {
    if 97 <= b <= 122 {
        (b - 32) as u8
    } else {
        b
    }
}

/// The bytes of typed text with whitespace removed and letters capitalised.
pub open spec fn squeeze(s: Seq<u8>) -> Seq<u8>
    decreases s.len(),
{
    if s.len() == 0 {
        seq![]
    } else if is_ascii_space(s.last()) {
        squeeze(s.drop_last())
    } else {
        squeeze(s.drop_last()).push(ascii_upper(s.last()))
    }
}

/// What `String::from_utf8_lossy` makes of a byte sequence.
pub uninterp spec fn utf8_lossy(bytes: Seq<u8>) -> Seq<char>;

/// The characters that ASCII bytes stand for.
pub open spec fn ascii_chars(bytes: Seq<u8>) -> Seq<char> {
    bytes.map_values(|b: u8| b as char)
}

pub open spec fn all_ascii(bytes: Seq<u8>) -> bool {
    forall|i: int| 0 <= i < bytes.len() ==> #[trigger] bytes[i] < 128
}

/// Calls `String::from_utf8_lossy` and takes ownership of the result.
/// Claimed of it: the result is a function of the bytes alone, and ASCII
/// bytes come back as the characters they encode.
#[verifier::external_body]
fn lossy_string(bytes: &[u8]) -> (s: String)
    ensures
        s@ == utf8_lossy(bytes@),
        all_ascii(bytes@) ==> s@ == ascii_chars(bytes@),
{
    String::from_utf8_lossy(bytes).into_owned()
}

fn is_ascii_whitespace(b: u8) -> (r: bool)
    ensures
        r == is_ascii_space(b),
{
    b == 32 || b == 9 || b == 10 || b == 12 || b == 13
}

fn to_ascii_uppercase(b: u8) -> (r: u8)
    ensures
        r == ascii_upper(b),
{
    if 97 <= b && b <= 122 {
        b - 32
    } else {
        b
    }
}

fn is_alphabet_byte(b: u8) -> (r: bool)
    ensures
        r == is_code_byte(b),
        r == in_code_alphabet(b),
{
    proof {
        lemma_code_bytes_are_the_alphabet(b);
    }
    (50 <= b && b <= 57) || (65 <= b && b <= 90 && b != 73 && b != 79)
}

fn alphabet(i: usize) -> (r: u8)
    requires
        i < ALPHABET_LEN,
    ensures
        r == alphabet_at(i as int),
        is_code_byte(r),
{
    if i < 8 {
        50 + i as u8
    } else if i < 16 {
        65 + (i - 8) as u8
    } else if i < 21 {
        74 + (i - 16) as u8
    } else {
        80 + (i - 21) as u8
    }
}

/// One step of the generator behind random room codes.
pub open spec fn code_step(n: u64) -> u64 {
    vstd::wrapping::u64_specs::wrapping_add(
        vstd::wrapping::u64_specs::wrapping_mul(n, 6364136223846793005),
        1,
    )
}

/// The generator's state after `k` steps from `n`.
pub open spec fn code_state(n: u64, k: nat) -> u64
    decreases k,
{
    if k == 0 {
        n
    } else {
        code_step(code_state(n, (k - 1) as nat))
    }
}

/// The room code that `RoomCode::random` derives from a seed.
pub open spec fn random_code(seed: u64) -> Seq<u8> {
    let n = seed ^ 0xC0DE_A11E;
    Seq::new(4, |k: int| alphabet_at((code_state(n, (k + 1) as nat) % 32) as int))
}

#[derive(Clone, Copy, Debug, PartialEq, Eq, Hash)]
pub struct RoomCode(pub [u8; 4]);

impl RoomCode {
    /// Reads a code as a player types it: whitespace is ignored and letters
    /// may be lower case; anything but four alphabet characters is refused.
    pub fn parse(text: &str) -> (r: Option<Self>)
        ensures
            r is Some <==> is_code(squeeze(text.spec_bytes())),
            r matches Some(code) ==> code.0@ == squeeze(text.spec_bytes()),
            r matches Some(code) ==> forall|i: int|
                0 <= i < 4 ==> in_code_alphabet(#[trigger] code.0@[i]),
    {
        let bytes = text.as_bytes();
        let mut kept: Vec<u8> = Vec::new();
        let mut i: usize = 0;
        while i < bytes.len()
            invariant
                i <= bytes@.len(),
                bytes@ == text.spec_bytes(),
                kept@ == squeeze(bytes@.take(i as int)),
            decreases bytes@.len() - i,
        {
            let b = bytes[i];
            assert(bytes@.take(i + 1).drop_last() =~= bytes@.take(i as int));
            if !is_ascii_whitespace(b) {
                kept.push(to_ascii_uppercase(b));
            }
            i += 1;
        }
        assert(bytes@.take(bytes@.len() as int) =~= bytes@);
        if kept.len() != 4 {
            return None;
        }
        let mut j: usize = 0;
        while j < 4
            invariant
                kept@.len() == 4,
                kept@ == squeeze(text.spec_bytes()),
                j <= 4,
                forall|k: int| 0 <= k < j ==> is_code_byte(#[trigger] kept@[k]),
            decreases 4 - j,
        {
            if !is_alphabet_byte(kept[j]) {
                assert(!is_code_byte(kept@[j as int]));
                return None;
            }
            j += 1;
        }
        let code = RoomCode([kept[0], kept[1], kept[2], kept[3]]);
        assert(code.0@ =~= kept@);
        assert forall|i: int| 0 <= i < 4 implies in_code_alphabet(#[trigger] code.0@[i]) by {
            lemma_code_bytes_are_the_alphabet(code.0@[i]);
        }
        Some(code)
    }

    /// A code derived from a seed; equal seeds give equal codes, and every
    /// code it makes consists of alphabet characters.
    pub fn random(seed: u64) -> (r: Self)
        ensures
            r.0@ == random_code(seed),
            is_code(r.0@),
            forall|i: int| 0 <= i < 4 ==> in_code_alphabet(#[trigger] r.0@[i]),
    {
        let mut n: u64 = seed ^ 0xC0DE_A11E;
        let ghost start = n;
        let mut out: Vec<u8> = Vec::new();
        let mut k: usize = 0;
        while k < 4
            invariant
                k <= 4,
                start == seed ^ 0xC0DE_A11E,
                n == code_state(start, k as nat),
                out@.len() == k,
                forall|j: int|
                    0 <= j < k ==> out@[j] == alphabet_at(
                        (code_state(start, (j + 1) as nat) % 32) as int,
                    ),
            decreases 4 - k,
        {
            n = n.wrapping_mul(6364136223846793005).wrapping_add(1);
            let index = (n % 32) as usize;
            out.push(alphabet(index));
            k += 1;
        }
        let code = RoomCode([out[0], out[1], out[2], out[3]]);
        assert(code.0@ =~= random_code(seed));
        assert forall|i: int| 0 <= i < 4 implies in_code_alphabet(#[trigger] code.0@[i]) by {
            lemma_code_bytes_are_the_alphabet(code.0@[i]);
        }
        code
    }

    /// The code as text; ASCII bytes, and so every code of alphabet
    /// characters, read as the characters they encode.
    pub fn as_str(&self) -> (s: String)
        ensures
            s@ == utf8_lossy(self.0@),
            all_ascii(self.0@) ==> s@ == ascii_chars(self.0@),
            is_code(self.0@) ==> s@ == ascii_chars(self.0@),
    {
        let bytes: &[u8] = &self.0;
        proof {
            if is_code(self.0@) {
                assert forall|i: int| 0 <= i < bytes@.len() implies #[trigger] bytes@[i] < 128 by {
                    assert(is_code_byte(self.0@[i]));
                }
            }
        }
        lossy_string(bytes)
    }
}

#[derive(Clone, Copy, Debug, PartialEq, Eq)]
pub enum Hello {
    Host(RoomCode),
    Guest(RoomCode),
}

impl Hello {
    pub open spec fn code(self) -> RoomCode {
        match self {
            Hello::Host(code) => code,
            Hello::Guest(code) => code,
        }
    }

    pub open spec fn tag(self) -> u8 {
        match self {
            Hello::Host(_) => HOST,
            Hello::Guest(_) => GUEST,
        }
    }

    /// The five bytes that open a connection to the relay.
    pub open spec fn bytes(self) -> Seq<u8> {
        seq![self.tag()] + self.code().0@
    }

    /// `b` is a hello frame that announces `self`.
    pub open spec fn read_from(self, b: Seq<u8>) -> bool {
        &&& is_hello(b)
        &&& b[0] == self.tag()
        &&& self.code().0@ == b.subrange(1, 5)
    }

    pub fn encode(self) -> (r: Vec<u8>)
        ensures
            r@ == self.bytes(),
    {
        let r = match self {
            Hello::Host(code) => vec![HOST, code.0[0], code.0[1], code.0[2], code.0[3]],
            Hello::Guest(code) => vec![GUEST, code.0[0], code.0[1], code.0[2], code.0[3]],
        };
        assert(r@ =~= self.bytes());
        r
    }

    pub fn decode(bytes: &[u8]) -> (r: Option<Self>)
        ensures
            r is Some <==> is_hello(bytes@),
            r matches Some(h) ==> h.read_from(bytes@),
    {
        if bytes.len() != 5 {
            return None;
        }
        let code = RoomCode([bytes[1], bytes[2], bytes[3], bytes[4]]);
        assert(code.0@ =~= bytes@.subrange(1, 5));
        let mut j: usize = 0;
        while j < 4
            invariant
                code.0@ == bytes@.subrange(1, 5),
                j <= 4,
                forall|k: int| 0 <= k < j ==> is_code_byte(#[trigger] code.0@[k]),
            decreases 4 - j,
        {
            if !is_alphabet_byte(code.0[j]) {
                return None;
            }
            j += 1;
        }
        if bytes[0] == HOST {
            Some(Hello::Host(code))
        } else if bytes[0] == GUEST {
            Some(Hello::Guest(code))
        } else {
            None
        }
    }
}

/// A well-formed hello frame: a host or guest tag and a room code.
pub open spec fn is_hello(b: Seq<u8>) -> bool {
    &&& b.len() == 5
    &&& (b[0] == HOST || b[0] == GUEST)
    &&& is_code(b.subrange(1, 5))
}

/// A hello frame announces the hello that encoded it, for every room
/// code of alphabet characters.
pub proof fn lemma_hello_round_trip(h: Hello)
    requires
        is_code(h.code().0@),
    ensures
        h.read_from(h.bytes()),
{
    assert(h.bytes().subrange(1, 5) =~= h.code().0@);
}

/// A hello is read only from the exact bytes that encode it.
pub proof fn lemma_hello_read_only_from_its_bytes(h: Hello, b: Seq<u8>)
    requires
        h.read_from(b),
    ensures
        h.bytes() == b,
{
    assert(h.bytes() =~= b);
}

/// A code shown to a player as text and typed back in is read as the
/// same code.
pub proof fn lemma_shown_code_parses(code: RoomCode)
    requires
        is_code(code.0@),
    ensures
        squeeze(vstd::utf8::encode_utf8(ascii_chars(code.0@))) == code.0@,
{
    let chars = ascii_chars(code.0@);
    assert(vstd::utf8::is_ascii_chars(chars)) by {
        assert forall|i: int| 0 <= i < chars.len() implies '\0' <= #[trigger] chars[i] <= '\u{7f}' by {
            assert(is_code_byte(code.0@[i]));
        }
    }
    vstd::utf8::is_ascii_chars_encode_utf8(chars);
    let b = vstd::utf8::encode_utf8(chars);
    assert forall|i: int| 0 <= i < 4 implies b[i] == code.0@[i] by {
        assert(chars[i] as u8 == b[i]);
        assert(is_code_byte(code.0@[i]));
    }
    assert(b =~= code.0@);
    lemma_squeeze_keeps_code_bytes(b);
}

/// Text made of alphabet characters alone is read unchanged.
proof fn lemma_squeeze_keeps_code_bytes(s: Seq<u8>)
    requires
        forall|i: int| 0 <= i < s.len() ==> is_code_byte(#[trigger] s[i]),
    ensures
        squeeze(s) == s,
    decreases s.len(),
{
    if s.len() > 0 {
        lemma_squeeze_keeps_code_bytes(s.drop_last());
        assert(is_code_byte(s[s.len() - 1]));
        assert(s.drop_last().push(s.last()) =~= s);
    }
}

/// The message a player reads for an error code of the relay.
pub open spec fn error_message(code: u8) -> Seq<char> {
    if code == ERR_EXISTS {
        "That room already exists. Host a new code."@
    } else if code == ERR_MISSING {
        "No host is waiting with that code."@
    } else if code == ERR_FULL {
        "That room is already full."@
    } else if code == ERR_BUSY {
        "Relay is full. Try again shortly."@
    } else {
        "Could not join the relay."@
    }
}

pub fn error_text(code: u8) -> (r: &'static str)
    ensures
        r@ == error_message(code),
{
    match code {
        ERR_EXISTS => "That room already exists. Host a new code.",
        ERR_MISSING => "No host is waiting with that code.",
        ERR_FULL => "That room is already full.",
        ERR_BUSY => "Relay is full. Try again shortly.",
        _ => "Could not join the relay.",
    }
}

/// A frame: the payload's length as four little-endian bytes, then the payload.
pub open spec fn frame_bytes(payload: Seq<u8>) -> Seq<u8> {
    u32_bytes(payload.len() as u32) + payload
}

/// The payload length that a frame header announces, if a reader accepts
/// it: at least one byte and at most `MAX_FRAME`.
pub open spec fn accepted_length(header: Seq<u8>) -> Option<usize> {
    let n = u32_at(header, 0);
    if 0 < n && n <= MAX_FRAME {
        Some(n as usize)
    } else {
        None
    }
}

/// The bytes that send `payload` as one frame; a payload longer than
/// `MAX_FRAME` is refused.
pub fn encode_frame(payload: &[u8]) -> (r: Option<Vec<u8>>)
    ensures
        r is None <==> payload@.len() > MAX_FRAME,
        r matches Some(frame) ==> frame@ == frame_bytes(payload@),
{
    if payload.len() > MAX_FRAME {
        return None;
    }
    let header = u32_to_le(payload.len() as u32);
    let mut out: Vec<u8> = Vec::with_capacity(4 + payload.len());
    out.push(header[0]);
    out.push(header[1]);
    out.push(header[2]);
    out.push(header[3]);
    let mut i: usize = 0;
    while i < payload.len()
        invariant
            i <= payload@.len(),
            payload@.len() <= MAX_FRAME,
            out@ == u32_bytes(payload@.len() as u32) + payload@.take(i as int),
        decreases payload@.len() - i,
    {
        out.push(payload[i]);
        assert(payload@.take(i + 1) =~= payload@.take(i as int).push(payload@[i as int]));
        i += 1;
    }
    assert(payload@.take(payload@.len() as int) =~= payload@);
    Some(out)
}

/// The payload length a received header announces, or `None` where a
/// reader must drop the connection (an empty or oversized frame).
pub fn frame_length(header: [u8; 4]) -> (r: Option<usize>)
    ensures
        r == accepted_length(header@),
{
    let n: u32 = header[0] as u32 + 0x100 * header[1] as u32 + 0x1_0000 * header[2] as u32
        + 0x100_0000 * header[3] as u32;
    if n == 0 || n as usize > MAX_FRAME {
        None
    } else {
        Some(n as usize)
    }
}

/// The payload of a complete frame held in a buffer.
pub fn frame_payload(frame: &[u8]) -> (r: Option<Vec<u8>>)
    ensures
        r is Some <==> frame@.len() >= 4 && accepted_length(frame@.take(4)) is Some
            && frame@.len() == 4 + accepted_length(frame@.take(4))->0,
        r matches Some(p) ==> p@ == frame@.skip(4),
{
    if frame.len() < 4 {
        return None;
    }
    let header = [frame[0], frame[1], frame[2], frame[3]];
    assert(header@ =~= frame@.take(4));
    let n = match frame_length(header) {
        Some(n) => n,
        None => return None,
    };
    if frame.len() - 4 != n {
        return None;
    }
    let mut out: Vec<u8> = Vec::with_capacity(n);
    let mut i: usize = 4;
    while i < frame.len()
        invariant
            4 <= i <= frame@.len(),
            out@ == frame@.subrange(4, i as int),
        decreases frame@.len() - i,
    {
        out.push(frame[i]);
        assert(frame@.subrange(4, i + 1) =~= frame@.subrange(4, i as int).push(frame@[i as int]));
        i += 1;
    }
    assert(frame@.subrange(4, frame@.len() as int) =~= frame@.skip(4));
    Some(out)
}

/// A frame carries its payload: the header of every non-empty payload that
/// `encode_frame` accepts announces the payload's length, and the bytes
/// after it are the payload.
pub proof fn lemma_frame_round_trip(payload: Seq<u8>)
    requires
        0 < payload.len() <= MAX_FRAME,
    ensures
        accepted_length(frame_bytes(payload).take(4)) == Some(payload.len() as usize),
        frame_bytes(payload).skip(4) == payload,
{
    let f = frame_bytes(payload);
    crate::le::lemma_u32_round_trip(payload.len() as u32);
    assert(f.take(4) =~= u32_bytes(payload.len() as u32));
    assert(f.skip(4) =~= payload);
}

} // verus!
