//! Big-endian integer and length-prefixed string reads over byte slices.
//!
//! Each reader returns the unconsumed tail together with the value. Its
//! contract ties it to a spec reader over `Seq<u8>` with the same shape, and
//! a short read inside an already-bounded payload is `ParseFrameFailed`.
use vstd::prelude::*;
use vstd::slice::slice_to_vec;
use crate::error::FrameDecodeErr;

verus! {

/// What a spec reader yields: the unconsumed tail and the value, or an error.
pub type Read<T> = Result<(Seq<u8>, T), FrameDecodeErr>;

/// The view of an exec read result whose value is plain data.
pub open spec fn read_view<T>(r: Result<(&[u8], T), FrameDecodeErr>) -> Read<T> {
    match r {
        Ok((rest, v)) => Ok((rest@, v)),
        Err(e) => Err(e),
    }
}

/// The view of an exec read result whose value is an owned byte string.
pub open spec fn bytes_read_view(r: Result<(&[u8], Vec<u8>), FrameDecodeErr>) -> Read<Seq<u8>> {
    match r {
        Ok((rest, v)) => Ok((rest@, v@)),
        Err(e) => Err(e),
    }
}

pub open spec fn short_read<T>() -> Read<T> {
    Err(FrameDecodeErr::ParseFrameFailed)
}

/// Big-endian value of the first two octets.
pub open spec fn be16(s: Seq<u8>) -> u16 {
    (s[0] as int * 0x100 + s[1] as int) as u16
}

/// Big-endian value of the first four octets.
pub open spec fn be32(s: Seq<u8>) -> u32 {
    (((s[0] as int * 0x100 + s[1] as int) * 0x100 + s[2] as int) * 0x100 + s[3] as int) as u32
}

/// Big-endian value of the first eight octets.
pub open spec fn be64(s: Seq<u8>) -> u64 {
    (be32(s) as int * 0x1_0000_0000 + be32(s.skip(4)) as int) as u64
}

/// Two's-complement reading of an octet.
pub open spec fn signed8(x: u8) -> i8 {
    if x < 0x80 { x as i8 } else { (x as int - 0x100) as i8 }
}

pub open spec fn signed16(x: u16) -> i16 {
    if x < 0x8000 { x as i16 } else { (x as int - 0x1_0000) as i16 }
}

pub open spec fn signed32(x: u32) -> i32 {
    if x < 0x8000_0000 { x as i32 } else { (x as int - 0x1_0000_0000) as i32 }
}

pub open spec fn signed64(x: u64) -> i64 {
    if x < 0x8000_0000_0000_0000 { x as i64 } else { (x as int - 0x1_0000_0000_0000_0000) as i64 }
}

pub open spec fn spec_u8(s: Seq<u8>) -> Read<u8> {
    if s.len() >= 1 { Ok((s.skip(1), s[0])) } else { short_read() }
}

pub open spec fn spec_u16(s: Seq<u8>) -> Read<u16> {
    if s.len() >= 2 { Ok((s.skip(2), be16(s))) } else { short_read() }
}

pub open spec fn spec_u32(s: Seq<u8>) -> Read<u32> {
    if s.len() >= 4 { Ok((s.skip(4), be32(s))) } else { short_read() }
}

pub open spec fn spec_u64(s: Seq<u8>) -> Read<u64> {
    if s.len() >= 8 { Ok((s.skip(8), be64(s))) } else { short_read() }
}

/// `n` raw octets.
pub open spec fn spec_take(s: Seq<u8>, n: int) -> Read<Seq<u8>> {
    if 0 <= n <= s.len() { Ok((s.skip(n), s.take(n))) } else { short_read() }
}

/// A short string: an octet length, then that many octets.
pub open spec fn spec_short_str(s: Seq<u8>) -> Read<Seq<u8>> {
    match spec_u8(s) {
        Err(e) => Err(e),
        Ok((s, n)) => spec_take(s, n as int),
    }
}

/// A long string: a 32-bit length, then that many octets.
pub open spec fn spec_long_str(s: Seq<u8>) -> Read<Seq<u8>> {
    match spec_u32(s) {
        Err(e) => Err(e),
        Ok((s, n)) => spec_take(s, n as int),
    }
}

/// Whether flag `i` of a packed-bits octet is set; flag 0 is bit 0.
pub open spec fn bit(flags: u8, i: u8) -> bool {
    (flags >> i) & 1u8 == 1u8
}

/// `s` begins with `tag`.
pub open spec fn starts_with(s: Seq<u8>, tag: Seq<u8>) -> bool {
    tag.len() <= s.len() && s.take(tag.len() as int) == tag
}

/// Reads one octet.
pub fn read_u8(input: &[u8]) -> (r: Result<(&[u8], u8), FrameDecodeErr>)
    ensures
        read_view(r) == spec_u8(input@),
{
    if input.len() < 1 {
        return Err(FrameDecodeErr::ParseFrameFailed);
    }
    let v = input[0];
    let (_, rest) = input.split_at(1);
    Ok((rest, v))
}

/// Reads a big-endian 16-bit integer.
pub fn read_u16(input: &[u8]) -> (r: Result<(&[u8], u16), FrameDecodeErr>)
    ensures
        read_view(r) == spec_u16(input@),
{
    if input.len() < 2 {
        return Err(FrameDecodeErr::ParseFrameFailed);
    }
    let v = input[0] as u16 * 0x100 + input[1] as u16;
    let (_, rest) = input.split_at(2);
    Ok((rest, v))
}

/// Reads a big-endian 32-bit integer.
pub fn read_u32(input: &[u8]) -> (r: Result<(&[u8], u32), FrameDecodeErr>)
    ensures
        read_view(r) == spec_u32(input@),
{
    if input.len() < 4 {
        return Err(FrameDecodeErr::ParseFrameFailed);
    }
    let v = ((input[0] as u32 * 0x100 + input[1] as u32) * 0x100 + input[2] as u32) * 0x100
        + input[3] as u32;
    let (_, rest) = input.split_at(4);
    Ok((rest, v))
}

/// Reads a big-endian 64-bit integer.
pub fn read_u64(input: &[u8]) -> (r: Result<(&[u8], u64), FrameDecodeErr>)
    ensures
        read_view(r) == spec_u64(input@),
{
    if input.len() < 8 {
        return Err(FrameDecodeErr::ParseFrameFailed);
    }
    let (hi_bytes, lo_bytes) = input.split_at(4);
    let (_, hi) = read_u32(hi_bytes)?;
    let (rest, lo) = read_u32(lo_bytes)?;
    assert(lo_bytes@ == input@.skip(4));
    assert(be32(hi_bytes@) == be32(input@));
    assert(rest@ == input@.skip(8));
    Ok((rest, hi as u64 * 0x1_0000_0000 + lo as u64))
}

/// Takes `n` raw octets.
pub fn read_bytes(input: &[u8], n: usize) -> (r: Result<(&[u8], Vec<u8>), FrameDecodeErr>)
    ensures
        bytes_read_view(r) == spec_take(input@, n as int),
{
    if input.len() < n {
        return Err(FrameDecodeErr::ParseFrameFailed);
    }
    let (taken, rest) = input.split_at(n);
    Ok((rest, slice_to_vec(taken)))
}

/// Reads a short string.
pub fn parse_short_string(input: &[u8]) -> (r: Result<(&[u8], Vec<u8>), FrameDecodeErr>)
    ensures
        bytes_read_view(r) == spec_short_str(input@),
{
    let (input, n) = read_u8(input)?;
    read_bytes(input, n as usize)
}

/// Reads a long string.
pub fn parse_long_string(input: &[u8]) -> (r: Result<(&[u8], Vec<u8>), FrameDecodeErr>)
    ensures
        bytes_read_view(r) == spec_long_str(input@),
{
    let (input, n) = read_u32(input)?;
    if n as u64 > input.len() as u64 {
        return Err(FrameDecodeErr::ParseFrameFailed);
    }
    read_bytes(input, n as usize)
}

/// Flag `i` of a packed-bits octet.
pub fn flag(flags: u8, i: u8) -> (r: bool)
    requires
        i < 8,
    ensures
        r == bit(flags, i),
{
    (flags >> i) & 1u8 == 1u8
}

/// Matches `flag` at the head of `input`; yields the tail and the matched octets.
pub fn read_tag<'a>(
    input: &'a [u8],
    flag: &[u8],
) -> (r: Result<(&'a [u8], &'a [u8]), FrameDecodeErr>)
    ensures
        starts_with(input@, flag@) <==> r is Ok,
        r matches Ok((rest, tag)) ==> tag@ == flag@ && rest@ == input@.skip(flag@.len() as int),
        r matches Err(e) ==> e == FrameDecodeErr::ParseFrameFailed,
{
    if input.len() < flag.len() {
        return Err(FrameDecodeErr::ParseFrameFailed);
    }
    let mut i: usize = 0;
    while i < flag.len()
        invariant
            i <= flag.len() <= input.len(),
            forall|j: int| 0 <= j < i ==> input@[j] == flag@[j],
        decreases flag.len() - i,
    {
        if input[i] != flag[i] {
            assert(input@.take(flag@.len() as int)[i as int] != flag@[i as int]);
            return Err(FrameDecodeErr::ParseFrameFailed);
        }
        i = i + 1;
    }
    let (tag, rest) = input.split_at(flag.len());
    assert(tag@ == flag@);
    Ok((rest, tag))
}

} // verus!
