//! Little-endian byte layouts of fixed-width integers.
use vstd::prelude::*;

verus! {

/// The four little-endian bytes of `v`.
pub open spec fn u32_bytes(v: u32) -> Seq<u8> {
    seq![
        (v % 0x100) as u8,
        ((v / 0x100) % 0x100) as u8,
        ((v / 0x1_0000) % 0x100) as u8,
        ((v / 0x100_0000) % 0x100) as u8,
    ]
}

/// The value that four little-endian bytes, starting at `at`, stand for.
pub open spec fn u32_at(s: Seq<u8>, at: int) -> u32 {
    (s[at] + 0x100 * s[at + 1] + 0x1_0000 * s[at + 2] + 0x100_0000 * s[at + 3]) as u32
}

pub proof fn lemma_u32_round_trip(v: u32)
    ensures
        u32_at(u32_bytes(v), 0) == v,
{
    let b = u32_bytes(v);
    assert(b[0] + 0x100 * b[1] + 0x1_0000 * b[2] + 0x100_0000 * b[3] == v) by (nonlinear_arith)
        requires
            b[0] == v % 0x100,
            b[1] == (v / 0x100) % 0x100,
            b[2] == (v / 0x1_0000) % 0x100,
            b[3] == (v / 0x100_0000) % 0x100,
    ;
}

/// Four bytes read as a value and written back are the same four bytes.
pub proof fn lemma_u32_bytes_of_value(s: Seq<u8>, at: int)
    requires
        0 <= at,
        at + 4 <= s.len(),
    ensures
        u32_bytes(u32_at(s, at)) == s.subrange(at, at + 4),
{
    let (b0, b1, b2, b3) = (s[at], s[at + 1], s[at + 2], s[at + 3]);
    let n: int = b0 + 0x100 * b1 + 0x1_0000 * b2 + 0x100_0000 * b3;
    assert(0 <= n < 0x1_0000_0000) by (nonlinear_arith)
        requires
            n == b0 + 0x100 * b1 + 0x1_0000 * b2 + 0x100_0000 * b3,
            b0 < 256,
            b1 < 256,
            b2 < 256,
            b3 < 256,
    ;
    assert(n % 0x100 == b0 && (n / 0x100) % 0x100 == b1 && (n / 0x1_0000) % 0x100 == b2 && (n
        / 0x100_0000) % 0x100 == b3) by (nonlinear_arith)
        requires
            n == b0 + 0x100 * b1 + 0x1_0000 * b2 + 0x100_0000 * b3,
            0 <= b0 < 256,
            0 <= b1 < 256,
            0 <= b2 < 256,
            0 <= b3 < 256,
    ;
    assert(u32_bytes(u32_at(s, at)) =~= s.subrange(at, at + 4));
}

/// The eight little-endian bytes of `v`.
pub open spec fn u64_bytes(v: u64) -> Seq<u8> {
    u32_bytes((v % 0x1_0000_0000) as u32) + u32_bytes((v / 0x1_0000_0000) as u32)
}

/// The value that eight little-endian bytes, starting at `at`, stand for.
pub open spec fn u64_at(s: Seq<u8>, at: int) -> u64 {
    (u32_at(s, at) + 0x1_0000_0000 * u32_at(s, at + 4)) as u64
}

pub proof fn lemma_u64_round_trip(v: u64)
    ensures
        u64_at(u64_bytes(v), 0) == v,
{
    let lo = (v % 0x1_0000_0000) as u32;
    let hi = (v / 0x1_0000_0000) as u32;
    lemma_u32_round_trip(lo);
    lemma_u32_round_trip(hi);
    let b = u64_bytes(v);
    assert(b.subrange(0, 4) =~= u32_bytes(lo));
    assert(b.subrange(4, 8) =~= u32_bytes(hi));
    assert(u32_at(b, 0) == u32_at(u32_bytes(lo), 0));
    assert(u32_at(b, 4) == u32_at(u32_bytes(hi), 0));
    assert(lo + 0x1_0000_0000 * hi == v) by (nonlinear_arith)
        requires
            lo == v % 0x1_0000_0000,
            hi == v / 0x1_0000_0000,
    ;
}

/// Eight bytes read as a value and written back are the same eight bytes.
pub proof fn lemma_u64_bytes_of_value(s: Seq<u8>, at: int)
    requires
        0 <= at,
        at + 8 <= s.len(),
    ensures
        u64_bytes(u64_at(s, at)) == s.subrange(at, at + 8),
{
    let lo = u32_at(s, at);
    let hi = u32_at(s, at + 4);
    let v = u64_at(s, at);
    assert(v == lo + 0x1_0000_0000 * hi && v % 0x1_0000_0000 == lo && v / 0x1_0000_0000 == hi)
        by (nonlinear_arith)
        requires
            v == lo + 0x1_0000_0000 * hi,
            0 <= lo < 0x1_0000_0000,
            0 <= hi < 0x1_0000_0000,
    ;
    lemma_u32_bytes_of_value(s, at);
    lemma_u32_bytes_of_value(s, at + 4);
    assert(u64_bytes(v) =~= s.subrange(at, at + 8));
}

pub fn u32_to_le(v: u32) -> (r: [u8; 4])
    ensures
        r@ == u32_bytes(v),
{
    let r = [
        (v & 0xff) as u8,
        ((v >> 8) & 0xff) as u8,
        ((v >> 16) & 0xff) as u8,
        ((v >> 24) & 0xff) as u8,
    ];
    assert(v & 0xff == v % 0x100) by (bit_vector);
    assert((v >> 8) & 0xff == (v / 0x100) % 0x100) by (bit_vector);
    assert((v >> 16) & 0xff == (v / 0x1_0000) % 0x100) by (bit_vector);
    assert((v >> 24) & 0xff == (v / 0x100_0000) % 0x100) by (bit_vector);
    assert(r@ =~= u32_bytes(v));
    r
}

} // verus!
