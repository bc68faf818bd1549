//! Field reader: fixed-width little-endian scalars at a byte offset.
//!
//! Every multi-byte value of the feed is little-endian. A read never moves a
//! cursor: the caller names the offset of each field. A field that does not
//! lie wholly inside the buffer is reported as `DecodeError::OutOfBounds`.

use crate::error::DecodeError;
use byte::{BytesExt, LE};
use vstd::prelude::*;

verus! {

/// `byte::Error`, what a read of the `byte` crate fails with. Nothing is
/// claimed of its contents: every failed read is reported as
/// `DecodeError::OutOfBounds`.
#[verifier::external_type_specification]
#[verifier::external_body]
pub struct ExByteError(byte::Error);

/// A single-precision IEEE 754 number, held as the 32 bits that encode it.
/// The decoders never compute with such a number: they hand on the bits as
/// they stood on the wire, and `f32::from_bits` makes the number of them.
/// Two values are equal when their bits are.
#[derive(Debug, Clone, Copy, PartialEq, Eq)]
pub struct FloatBits {
    pub bits: u32,
}

/// Whether `width` bytes starting at `off` all lie inside `s`.
pub open spec fn in_bounds(s: Seq<u8>, off: int, width: int) -> bool {
    0 <= off && off + width <= s.len()
}

/// The byte at `off`, read as a signed number in two's complement.
pub open spec fn le_i8(s: Seq<u8>, off: int) -> i8 {
    if s[off] < 0x80 {
        s[off] as i8
    } else {
        (s[off] - 0x100) as i8
    }
}

/// The unsigned 16-bit number whose little-endian bytes start at `off`.
pub open spec fn le_u16(s: Seq<u8>, off: int) -> u16 {
    (s[off] + 0x100 * s[off + 1]) as u16
}

/// The signed 16-bit number whose little-endian bytes start at `off`.
pub open spec fn le_i16(s: Seq<u8>, off: int) -> i16 {
    if le_u16(s, off) < 0x8000 {
        le_u16(s, off) as i16
    } else {
        (le_u16(s, off) - 0x1_0000) as i16
    }
}

/// The unsigned 32-bit number whose little-endian bytes start at `off`.
pub open spec fn le_u32(s: Seq<u8>, off: int) -> u32 {
    (s[off] + 0x100 * s[off + 1] + 0x1_0000 * s[off + 2] + 0x100_0000 * s[off + 3]) as u32
}

/// The unsigned 64-bit number whose little-endian bytes start at `off`.
pub open spec fn le_u64(s: Seq<u8>, off: int) -> u64 {
    (le_u32(s, off) + 0x1_0000_0000 * le_u32(s, off + 4)) as u64
}

/// The single-precision number whose little-endian bytes start at `off`.
pub open spec fn le_float(s: Seq<u8>, off: int) -> FloatBits {
    FloatBits { bits: le_u32(s, off) }
}

/// `byte::BytesExt::read_with::<u8>` on a byte slice. The crate returns an
/// error when the offset is past the end of the slice or no byte follows it,
/// and otherwise the byte at the offset.
#[verifier::external_body]
fn bytes_read_u8(buf: &[u8], offset: usize) -> (r: Result<u8, byte::Error>)
    ensures
        r is Ok <==> in_bounds(buf@, offset as int, 1),
        r matches Ok(v) ==> v == buf@[offset as int],
{
    let mut at = offset;
    buf.read_with::<u8>(&mut at, LE)
}

/// `byte::BytesExt::read_with::<i8>` on a byte slice. The crate returns an
/// error when the offset is past the end of the slice or no byte follows it,
/// and otherwise `i8::from_le_bytes` of the byte at the offset: the byte as a
/// number in two's complement.
#[verifier::external_body]
fn bytes_read_i8(buf: &[u8], offset: usize) -> (r: Result<i8, byte::Error>)
    ensures
        r is Ok <==> in_bounds(buf@, offset as int, 1),
        r matches Ok(v) ==> v == le_i8(buf@, offset as int),
{
    let mut at = offset;
    buf.read_with::<i8>(&mut at, LE)
}

/// `byte::BytesExt::read_with::<u16>` on a byte slice, in the context
/// `byte::LE`. The crate returns an error when the offset is past the end of
/// the slice or fewer than two bytes follow it, and otherwise
/// `u16::from_le_bytes` of the two bytes at the offset.
#[verifier::external_body]
fn bytes_read_u16(buf: &[u8], offset: usize) -> (r: Result<u16, byte::Error>)
    ensures
        r is Ok <==> in_bounds(buf@, offset as int, 2),
        r matches Ok(v) ==> v == le_u16(buf@, offset as int),
{
    let mut at = offset;
    buf.read_with::<u16>(&mut at, LE)
}

/// `byte::BytesExt::read_with::<i16>` on a byte slice, in the context
/// `byte::LE`. The crate returns an error when the offset is past the end of
/// the slice or fewer than two bytes follow it, and otherwise
/// `i16::from_le_bytes` of the two bytes at the offset.
#[verifier::external_body]
fn bytes_read_i16(buf: &[u8], offset: usize) -> (r: Result<i16, byte::Error>)
    ensures
        r is Ok <==> in_bounds(buf@, offset as int, 2),
        r matches Ok(v) ==> v == le_i16(buf@, offset as int),
{
    let mut at = offset;
    buf.read_with::<i16>(&mut at, LE)
}

/// `byte::BytesExt::read_with::<u32>` on a byte slice, in the context
/// `byte::LE`. The crate returns an error when the offset is past the end of
/// the slice or fewer than four bytes follow it, and otherwise
/// `u32::from_le_bytes` of the four bytes at the offset.
#[verifier::external_body]
fn bytes_read_u32(buf: &[u8], offset: usize) -> (r: Result<u32, byte::Error>)
    ensures
        r is Ok <==> in_bounds(buf@, offset as int, 4),
        r matches Ok(v) ==> v == le_u32(buf@, offset as int),
{
    let mut at = offset;
    buf.read_with::<u32>(&mut at, LE)
}

/// `byte::BytesExt::read_with::<u64>` on a byte slice, in the context
/// `byte::LE`. The crate returns an error when the offset is past the end of
/// the slice or fewer than eight bytes follow it, and otherwise
/// `u64::from_le_bytes` of the eight bytes at the offset.
#[verifier::external_body]
fn bytes_read_u64(buf: &[u8], offset: usize) -> (r: Result<u64, byte::Error>)
    ensures
        r is Ok <==> in_bounds(buf@, offset as int, 8),
        r matches Ok(v) ==> v == le_u64(buf@, offset as int),
{
    let mut at = offset;
    buf.read_with::<u64>(&mut at, LE)
}

/// Reads the byte at `offset`.
pub fn read_u8(buf: &[u8], offset: usize) -> (r: Result<u8, DecodeError>)
    ensures
        r is Ok <==> in_bounds(buf@, offset as int, 1),
        r matches Ok(v) ==> v == buf@[offset as int],
        r matches Err(e) ==> e == DecodeError::OutOfBounds,
{
    match bytes_read_u8(buf, offset) {
        Ok(v) => Ok(v),
        Err(_) => Err(DecodeError::OutOfBounds),
    }
}

/// Reads the byte at `offset` as a signed number.
pub fn read_i8(buf: &[u8], offset: usize) -> (r: Result<i8, DecodeError>)
    ensures
        r is Ok <==> in_bounds(buf@, offset as int, 1),
        r matches Ok(v) ==> v == le_i8(buf@, offset as int),
        r matches Err(e) ==> e == DecodeError::OutOfBounds,
{
    match bytes_read_i8(buf, offset) {
        Ok(v) => Ok(v),
        Err(_) => Err(DecodeError::OutOfBounds),
    }
}

/// Reads the unsigned 16-bit number at `offset`.
pub fn read_u16(buf: &[u8], offset: usize) -> (r: Result<u16, DecodeError>)
    ensures
        r is Ok <==> in_bounds(buf@, offset as int, 2),
        r matches Ok(v) ==> v == le_u16(buf@, offset as int),
        r matches Err(e) ==> e == DecodeError::OutOfBounds,
{
    match bytes_read_u16(buf, offset) {
        Ok(v) => Ok(v),
        Err(_) => Err(DecodeError::OutOfBounds),
    }
}

/// Reads the signed 16-bit number at `offset`.
pub fn read_i16(buf: &[u8], offset: usize) -> (r: Result<i16, DecodeError>)
    ensures
        r is Ok <==> in_bounds(buf@, offset as int, 2),
        r matches Ok(v) ==> v == le_i16(buf@, offset as int),
        r matches Err(e) ==> e == DecodeError::OutOfBounds,
{
    match bytes_read_i16(buf, offset) {
        Ok(v) => Ok(v),
        Err(_) => Err(DecodeError::OutOfBounds),
    }
}

/// Reads the unsigned 32-bit number at `offset`.
pub fn read_u32(buf: &[u8], offset: usize) -> (r: Result<u32, DecodeError>)
    ensures
        r is Ok <==> in_bounds(buf@, offset as int, 4),
        r matches Ok(v) ==> v == le_u32(buf@, offset as int),
        r matches Err(e) ==> e == DecodeError::OutOfBounds,
{
    match bytes_read_u32(buf, offset) {
        Ok(v) => Ok(v),
        Err(_) => Err(DecodeError::OutOfBounds),
    }
}

/// Reads the unsigned 64-bit number at `offset`.
pub fn read_u64(buf: &[u8], offset: usize) -> (r: Result<u64, DecodeError>)
    ensures
        r is Ok <==> in_bounds(buf@, offset as int, 8),
        r matches Ok(v) ==> v == le_u64(buf@, offset as int),
        r matches Err(e) ==> e == DecodeError::OutOfBounds,
{
    match bytes_read_u64(buf, offset) {
        Ok(v) => Ok(v),
        Err(_) => Err(DecodeError::OutOfBounds),
    }
}

/// Reads the single-precision number at `offset`, as its bits.
pub fn read_float(buf: &[u8], offset: usize) -> (r: Result<FloatBits, DecodeError>)
    ensures
        r is Ok <==> in_bounds(buf@, offset as int, 4),
        r matches Ok(v) ==> v == le_float(buf@, offset as int),
        r matches Err(e) ==> e == DecodeError::OutOfBounds,
{
    match bytes_read_u32(buf, offset) {
        Ok(bits) => Ok(FloatBits { bits }),
        Err(_) => Err(DecodeError::OutOfBounds),
    }
}

} // verus!
