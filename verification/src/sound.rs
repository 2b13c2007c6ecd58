//! The container of the procedurally synthesised sounds: mono 16-bit PCM
//! in a WAV (RIFF) file.
use vstd::prelude::*;

use crate::le::{u32_bytes, u32_to_le};

verus! {

pub open spec fn u16_bytes(v: u16) -> Seq<u8> {
    seq![(v % 0x100) as u8, (v / 0x100) as u8]
}

/// The 44-byte header of a mono 16-bit PCM WAV file with `count` samples
/// at `rate` samples per second.
pub open spec fn wav_header_bytes(rate: u32, count: u32) -> Seq<u8> {
    let data_len = (count * 2) as u32;
    seq![82u8, 73, 70, 70] + u32_bytes((36 + data_len) as u32) + seq![
        87u8,
        65,
        86,
        69,
        102,
        109,
        116,
        32,
    ] + u32_bytes(16) + u16_bytes(1) + u16_bytes(1) + u32_bytes(rate) + u32_bytes(
        (rate * 2) as u32,
    ) + u16_bytes(2) + u16_bytes(16) + seq![100u8, 97, 116, 97] + u32_bytes(data_len)
}

/// The two little-endian bytes of a 16-bit sample in two's complement.
pub open spec fn sample_bytes(sample: i16) -> Seq<u8> {
    u16_bytes(
        if sample < 0 {
            (sample + 0x1_0000) as u16
        } else {
            sample as u16
        },
    )
}

fn push_u32(out: &mut Vec<u8>, v: u32)
    ensures
        final(out)@ == old(out)@ + u32_bytes(v),
{
    let b = u32_to_le(v);
    out.push(b[0]);
    out.push(b[1]);
    out.push(b[2]);
    out.push(b[3]);
    assert(final(out)@ =~= old(out)@ + u32_bytes(v));
}

fn push_u16(out: &mut Vec<u8>, v: u16)
    ensures
        final(out)@ == old(out)@ + u16_bytes(v),
{
    out.push((v % 0x100) as u8);
    out.push((v / 0x100) as u8);
    assert(final(out)@ =~= old(out)@ + u16_bytes(v));
}

/// The header of a sound of `count` samples at `rate` samples per second;
/// the samples follow it, each written by `push_sample`.
pub fn wav_header(rate: u32, count: u32) -> (r: Vec<u8>)
    requires
        36 + 2 * count <= u32::MAX,
        2 * rate <= u32::MAX,
    ensures
        r@ == wav_header_bytes(rate, count),
        r@.len() == 44,
{
    let data_len = count * 2;
    let mut bytes: Vec<u8> = Vec::new();
    bytes.push(82);
    bytes.push(73);
    bytes.push(70);
    bytes.push(70);
    push_u32(&mut bytes, 36 + data_len);
    bytes.push(87);
    bytes.push(65);
    bytes.push(86);
    bytes.push(69);
    bytes.push(102);
    bytes.push(109);
    bytes.push(116);
    bytes.push(32);
    push_u32(&mut bytes, 16);
    push_u16(&mut bytes, 1);
    push_u16(&mut bytes, 1);
    push_u32(&mut bytes, rate);
    push_u32(&mut bytes, rate * 2);
    push_u16(&mut bytes, 2);
    push_u16(&mut bytes, 16);
    bytes.push(100);
    bytes.push(97);
    bytes.push(116);
    bytes.push(97);
    push_u32(&mut bytes, data_len);
    assert(bytes@ =~= wav_header_bytes(rate, count));
    bytes
}

/// Appends one sample.
pub fn push_sample(bytes: &mut Vec<u8>, sample: i16)
    ensures
        final(bytes)@ == old(bytes)@ + sample_bytes(sample),
{
    let v: u16 = if sample < 0 {
        (sample as i32 + 0x1_0000) as u16
    } else {
        sample as u16
    };
    push_u16(bytes, v);
}

/// The sizes a WAV header announces are the sizes of the file it opens:
/// the RIFF chunk spans the file after its first eight bytes, and the data
/// chunk spans the samples.
pub proof fn lemma_header_sizes(rate: u32, count: u32)
    requires
        36 + 2 * count <= u32::MAX,
        2 * rate <= u32::MAX,
    ensures
        crate::le::u32_at(wav_header_bytes(rate, count), 4) + 8 == 44 + 2 * count,
        crate::le::u32_at(wav_header_bytes(rate, count), 40) == 2 * count,
        crate::le::u32_at(wav_header_bytes(rate, count), 24) == rate,
{
    let h = wav_header_bytes(rate, count);
    crate::le::lemma_u32_round_trip((36 + 2 * count) as u32);
    crate::le::lemma_u32_round_trip((2 * count) as u32);
    crate::le::lemma_u32_round_trip(rate);
    assert(h.subrange(4, 8) =~= u32_bytes((36 + 2 * count) as u32));
    assert(h.subrange(40, 44) =~= u32_bytes((2 * count) as u32));
    assert(h.subrange(24, 28) =~= u32_bytes(rate));
    assert(crate::le::u32_at(h, 4) == crate::le::u32_at(h.subrange(4, 8), 0));
    assert(crate::le::u32_at(h, 40) == crate::le::u32_at(h.subrange(40, 44), 0));
    assert(crate::le::u32_at(h, 24) == crate::le::u32_at(h.subrange(24, 28), 0));
}

} // verus!
