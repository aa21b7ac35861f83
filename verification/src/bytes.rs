//! Little-endian byte encodings shared by the record and instruction codecs.

use vstd::prelude::*;
use vstd::bytes::{
    spec_u16_to_le_bytes, spec_u16_from_le_bytes,
    spec_u32_to_le_bytes, spec_u32_from_le_bytes, lemma_auto_spec_u32_to_from_le_bytes,
    spec_u64_to_le_bytes, spec_u64_from_le_bytes,
    u16_to_le_bytes, u16_from_le_bytes, u32_to_le_bytes, u32_from_le_bytes, u64_to_le_bytes,
    u64_from_le_bytes,
};

verus! {

/// The two's-complement image of a signed 32-bit value.
pub open spec fn i32_as_u32(x: i32) -> u32 {
    if x >= 0 {
        x as u32
    } else {
        (x + 0x1_0000_0000) as u32
    }
}

/// The signed reading of a 32-bit word.
pub open spec fn u32_as_i32(x: u32) -> i32 {
    if x < 0x8000_0000 {
        x as i32
    } else {
        (x - 0x1_0000_0000) as i32
    }
}

/// A signed value as the little-endian bytes of its two's-complement image.
pub open spec fn spec_i32_to_le_bytes(x: i32) -> Seq<u8> {
    spec_u32_to_le_bytes(i32_as_u32(x))
}

/// The signed value read back from four little-endian bytes.
pub open spec fn spec_i32_from_le_bytes(s: Seq<u8>) -> i32 {
    u32_as_i32(spec_u32_from_le_bytes(s))
}

pub proof fn lemma_auto_spec_i32_to_from_le_bytes()
    ensures
        forall|x: i32| {
            &&& #[trigger] spec_i32_to_le_bytes(x).len() == 4
            &&& spec_i32_from_le_bytes(spec_i32_to_le_bytes(x)) == x
        },
{
    lemma_auto_spec_u32_to_from_le_bytes();
}

pub fn i32_to_u32(x: i32) -> (r: u32)
    ensures
        r == i32_as_u32(x),
{
    if x >= 0 {
        x as u32
    } else {
        ((x as i64) + 0x1_0000_0000) as u32
    }
}

pub fn u32_to_i32(x: u32) -> (r: i32)
    ensures
        r == u32_as_i32(x),
{
    if x < 0x8000_0000 {
        x as i32
    } else {
        ((x as i64) - 0x1_0000_0000) as i32
    }
}

/// Append one byte.
pub fn put_u8(out: &mut Vec<u8>, x: u8)
    ensures
        final(out)@ == old(out)@ + seq![x],
{
    out.push(x);
    proof {
        assert(out@ =~= old(out)@ + seq![x]);
    }
}

/// Append a `u16` in little-endian order.
pub fn put_u16(out: &mut Vec<u8>, x: u16)
    ensures
        final(out)@ == old(out)@ + spec_u16_to_le_bytes(x),
{
    let mut enc = u16_to_le_bytes(x);
    out.append(&mut enc);
}

/// Append a `u32` in little-endian order.
pub fn put_u32(out: &mut Vec<u8>, x: u32)
    ensures
        final(out)@ == old(out)@ + spec_u32_to_le_bytes(x),
{
    let mut enc = u32_to_le_bytes(x);
    out.append(&mut enc);
}

/// Append a `u64` in little-endian order.
pub fn put_u64(out: &mut Vec<u8>, x: u64)
    ensures
        final(out)@ == old(out)@ + spec_u64_to_le_bytes(x),
{
    let mut enc = u64_to_le_bytes(x);
    out.append(&mut enc);
}

/// Append an `i32` in little-endian two's-complement order.
pub fn put_i32(out: &mut Vec<u8>, x: i32)
    ensures
        final(out)@ == old(out)@ + spec_i32_to_le_bytes(x),
{
    put_u32(out, i32_to_u32(x));
}

/// Append a copy of `src`.
pub fn put_bytes(out: &mut Vec<u8>, src: &Vec<u8>)
    ensures
        final(out)@ == old(out)@ + src@,
{
    let ghost base = out@;
    let n = src.len();
    let mut i: usize = 0;
    while i < n
        invariant
            i <= n,
            n == src@.len(),
            out@ == base + src@.subrange(0, i as int),
        decreases n - i,
    {
        out.push(src[i]);
        proof {
            assert(out@ =~= base + src@.subrange(0, i + 1 as int));
        }
        i = i + 1;
    }
    proof {
        assert(out@ =~= base + src@);
    }
}

/// Append `n` zero bytes.
pub fn put_zeros(out: &mut Vec<u8>, n: usize)
    ensures
        final(out)@ == old(out)@ + Seq::new(n as nat, |i: int| 0u8),
{
    let ghost base = out@;
    let mut i: usize = 0;
    while i < n
        invariant
            i <= n,
            out@ == base + Seq::new(i as nat, |j: int| 0u8),
        decreases n - i,
    {
        out.push(0u8);
        proof {
            assert(out@ =~= base + Seq::new((i + 1) as nat, |j: int| 0u8));
        }
        i = i + 1;
    }
}

/// The bytes of `src` from `off` up to but not including `off + n`.
pub fn take_bytes(src: &Vec<u8>, off: usize, n: usize) -> (r: Vec<u8>)
    requires
        off + n <= src@.len(),
    ensures
        r@ == src@.subrange(off as int, off + n),
{
    let mut out: Vec<u8> = Vec::new();
    let len = src.len();
    let mut i: usize = 0;
    while i < n
        invariant
            i <= n,
            len == src@.len(),
            off + n <= len,
            out@.len() == i,
            forall|j: int| 0 <= j < i ==> out@[j] == src@[off + j],
        decreases n - i,
    {
        out.push(src[off + i]);
        i = i + 1;
    }
    assert(out@ =~= src@.subrange(off as int, off + n));
    out
}

/// Read a `u16` stored little-endian at `off`.
pub fn get_u16(src: &Vec<u8>, off: usize) -> (r: u16)
    requires
        off + 2 <= src@.len(),
    ensures
        r == spec_u16_from_le_bytes(src@.subrange(off as int, off + 2)),
{
    let part = take_bytes(src, off, 2);
    u16_from_le_bytes(part.as_slice())
}

/// Read a `u32` stored little-endian at `off`.
pub fn get_u32(src: &Vec<u8>, off: usize) -> (r: u32)
    requires
        off + 4 <= src@.len(),
    ensures
        r == spec_u32_from_le_bytes(src@.subrange(off as int, off + 4)),
{
    let part = take_bytes(src, off, 4);
    u32_from_le_bytes(part.as_slice())
}

/// Read a `u64` stored little-endian at `off`.
pub fn get_u64(src: &Vec<u8>, off: usize) -> (r: u64)
    requires
        off + 8 <= src@.len(),
    ensures
        r == spec_u64_from_le_bytes(src@.subrange(off as int, off + 8)),
{
    let part = take_bytes(src, off, 8);
    u64_from_le_bytes(part.as_slice())
}

/// Read an `i32` stored little-endian at `off`.
pub fn get_i32(src: &Vec<u8>, off: usize) -> (r: i32)
    requires
        off + 4 <= src@.len(),
    ensures
        r == spec_i32_from_le_bytes(src@.subrange(off as int, off + 4)),
{
    u32_to_i32(get_u32(src, off))
}

} // verus!
