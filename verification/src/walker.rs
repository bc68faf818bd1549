//! Array walker: a fixed number of records laid out at a fixed stride.
//!
//! The index of a slot carries meaning (the car, the wheel, the marshal zone),
//! so slot `i` is always the record at `base + i * stride`, in that order.

use crate::error::DecodeError;
use crate::wire::{in_bounds, le_float, le_u16, read_float, read_u16, read_u8, FloatBits};
use vstd::prelude::*;

verus! {

/// Cars in a session: every per-car array has this many slots.
pub const NUM_CARS: usize = 20;

/// Wheels of a car.
pub const NUM_WHEELS: usize = 4;

/// Position of the rear left wheel in a `WheelQuad`.
pub const REAR_LEFT: usize = 0;

/// Position of the rear right wheel in a `WheelQuad`.
pub const REAR_RIGHT: usize = 1;

/// Position of the front left wheel in a `WheelQuad`.
pub const FRONT_LEFT: usize = 2;

/// Position of the front right wheel in a `WheelQuad`.
pub const FRONT_RIGHT: usize = 3;

/// One value per car, ordered by car index (not by race position).
pub type CarSlotArray<T> = [T; NUM_CARS];

/// One value per wheel, in the order of the wire format: rear left, rear
/// right, front left, front right.
pub type WheelQuad<T> = [T; NUM_WHEELS];

/// `n` bytes of zero.
pub open spec fn zeros(n: nat) -> Seq<u8> {
    Seq::new(n, |i: int| 0u8)
}

/// A value with a fixed layout on the wire.
pub trait WireRecord: Copy {
    /// The number of bytes that one value takes.
    spec fn width() -> nat;

    /// The value whose bytes start at `off`.
    spec fn at(buf: Seq<u8>, off: int) -> Self;

    /// The value that bytes of zero decode to. It fills a slot until the slot
    /// is decoded.
    fn blank() -> (r: Self)
        ensures
            r == Self::at(zeros(Self::width()), 0),
    ;

    /// Decodes the value at `off`. Fails, without reading any field, unless
    /// all its bytes lie inside the buffer.
    fn decode_at(buf: &[u8], off: usize) -> (r: Result<Self, DecodeError>)
        ensures
            r is Ok <==> in_bounds(buf@, off as int, Self::width() as int),
            r matches Ok(v) ==> v == Self::at(buf@, off as int),
            r matches Err(e) ==> e == DecodeError::OutOfBounds,
    ;
}

impl WireRecord for u8 {
    open spec fn width() -> nat {
        1
    }

    open spec fn at(buf: Seq<u8>, off: int) -> Self {
        buf[off]
    }

    fn blank() -> (r: Self) {
        0
    }

    fn decode_at(buf: &[u8], off: usize) -> (r: Result<Self, DecodeError>) {
        read_u8(buf, off)
    }
}

impl WireRecord for u16 {
    open spec fn width() -> nat {
        2
    }

    open spec fn at(buf: Seq<u8>, off: int) -> Self {
        le_u16(buf, off)
    }

    fn blank() -> (r: Self) {
        0
    }

    fn decode_at(buf: &[u8], off: usize) -> (r: Result<Self, DecodeError>) {
        read_u16(buf, off)
    }
}

impl WireRecord for FloatBits {
    open spec fn width() -> nat {
        4
    }

    open spec fn at(buf: Seq<u8>, off: int) -> Self {
        le_float(buf, off)
    }

    fn blank() -> (r: Self) {
        FloatBits { bits: 0 }
    }

    fn decode_at(buf: &[u8], off: usize) -> (r: Result<Self, DecodeError>) {
        read_float(buf, off)
    }
}

/// Where slot `i` of an array starts.
pub open spec fn slot_offset(base: int, stride: int, i: int) -> int {
    base + i * stride
}

/// Whether each of the first `count` slots lies inside `buf`.
pub open spec fn slots_in_bounds<T: WireRecord>(
    buf: Seq<u8>,
    base: int,
    stride: int,
    count: int,
) -> bool {
    forall|i: int|
        0 <= i < count ==> in_bounds(buf, #[trigger] slot_offset(base, stride, i), T::width() as int)
}

/// The four values at `base`, `base + stride`, and so on.
pub open spec fn quad_at<T: WireRecord>(buf: Seq<u8>, base: int, stride: int) -> WheelQuad<T> {
    [
        T::at(buf, slot_offset(base, stride, 0)),
        T::at(buf, slot_offset(base, stride, 1)),
        T::at(buf, slot_offset(base, stride, 2)),
        T::at(buf, slot_offset(base, stride, 3)),
    ]
}

/// The twenty values at `base`, `base + stride`, and so on.
#[verifier::opaque]
pub open spec fn car_slots_at<T: WireRecord>(buf: Seq<u8>, base: int, stride: int) -> CarSlotArray<
    T,
> {
    [
        T::at(buf, slot_offset(base, stride, 0)),
        T::at(buf, slot_offset(base, stride, 1)),
        T::at(buf, slot_offset(base, stride, 2)),
        T::at(buf, slot_offset(base, stride, 3)),
        T::at(buf, slot_offset(base, stride, 4)),
        T::at(buf, slot_offset(base, stride, 5)),
        T::at(buf, slot_offset(base, stride, 6)),
        T::at(buf, slot_offset(base, stride, 7)),
        T::at(buf, slot_offset(base, stride, 8)),
        T::at(buf, slot_offset(base, stride, 9)),
        T::at(buf, slot_offset(base, stride, 10)),
        T::at(buf, slot_offset(base, stride, 11)),
        T::at(buf, slot_offset(base, stride, 12)),
        T::at(buf, slot_offset(base, stride, 13)),
        T::at(buf, slot_offset(base, stride, 14)),
        T::at(buf, slot_offset(base, stride, 15)),
        T::at(buf, slot_offset(base, stride, 16)),
        T::at(buf, slot_offset(base, stride, 17)),
        T::at(buf, slot_offset(base, stride, 18)),
        T::at(buf, slot_offset(base, stride, 19)),
    ]
}

/// Decodes `N` values, the `i`-th at `base + i * stride`, in ascending order
/// of `i`. The first value that does not lie inside the buffer ends the walk
/// with its error: no partly filled array is ever handed out. So the walk
/// succeeds exactly when every slot lies inside the buffer. A stride that
/// differs from the width of a value is in order: values may lie apart, or
/// overlap.
pub fn decode_array<T: WireRecord, const N: usize>(buf: &[u8], base: usize, stride: usize) -> (r:
    Result<[T; N], DecodeError>)
    ensures
        r is Ok <==> slots_in_bounds::<T>(buf@, base as int, stride as int, N as int),
        r matches Ok(a) ==> forall|i: int|
            0 <= i < N ==> #[trigger] a[i] == T::at(buf@, slot_offset(base as int, stride as int, i)),
        r matches Err(e) ==> e == DecodeError::OutOfBounds,
{
    let mut out: [T; N] = [T::blank();N];
    let mut i: usize = 0;
    assert(buf@.len() == buf.len());
    while i < N
        invariant
            0 <= i <= N,
            buf@.len() <= usize::MAX,
            slots_in_bounds::<T>(buf@, base as int, stride as int, i as int),
            forall|j: int|
                0 <= j < i ==> #[trigger] out[j] == T::at(
                    buf@,
                    slot_offset(base as int, stride as int, j),
                ),
        decreases N - i,
    {
        let ghost here = slot_offset(base as int, stride as int, i as int);
        let step = match i.checked_mul(stride) {
            Some(s) => s,
            None => {
                assert(!in_bounds(buf@, here, T::width() as int));
                return Err(DecodeError::OutOfBounds);
            },
        };
        let off = match base.checked_add(step) {
            Some(o) => o,
            None => {
                assert(!in_bounds(buf@, here, T::width() as int));
                return Err(DecodeError::OutOfBounds);
            },
        };
        match T::decode_at(buf, off) {
            Ok(v) => {
                out[i] = v;
            },
            Err(e) => {
                assert(!in_bounds(buf@, here, T::width() as int));
                return Err(e);
            },
        }
        i += 1;
    }
    Ok(out)
}

/// A run of slots lies inside a buffer exactly when its last slot does.
pub proof fn lemma_slots_in_bounds<T: WireRecord>(buf: Seq<u8>, base: int, stride: int, count: int)
    requires
        0 <= base,
        0 <= stride,
        0 < count,
    ensures
        slots_in_bounds::<T>(buf, base, stride, count) <==> in_bounds(
            buf,
            base,
            (count - 1) * stride + T::width(),
        ),
{
    if slots_in_bounds::<T>(buf, base, stride, count) {
        assert(in_bounds(buf, slot_offset(base, stride, count - 1), T::width() as int));
    }
    if in_bounds(buf, base, (count - 1) * stride + T::width()) {
        assert forall|i: int| 0 <= i < count implies in_bounds(
            buf,
            #[trigger] slot_offset(base, stride, i),
            T::width() as int,
        ) by {
            assert(0 <= i * stride <= (count - 1) * stride) by (nonlinear_arith)
                requires
                    0 <= i <= count - 1,
                    0 <= stride,
            ;
        }
    }
}

/// Slot `i` of the twenty is the value at `base + i * stride`.
pub proof fn lemma_car_slot<T: WireRecord>(buf: Seq<u8>, base: int, stride: int, i: int)
    requires
        0 <= i < 20,
    ensures
        car_slots_at::<T>(buf, base, stride)[i] == T::at(buf, slot_offset(base, stride, i)),
{
    reveal(car_slots_at);
}

/// Decodes the twenty per-car values whose first starts at `base`.
pub fn decode_car_slots<T: WireRecord>(buf: &[u8], base: usize, stride: usize) -> (r: Result<
    CarSlotArray<T>,
    DecodeError,
>)
    ensures
        r is Ok <==> in_bounds(buf@, base as int, 19 * stride + T::width()),
        r matches Ok(a) ==> a == car_slots_at::<T>(buf@, base as int, stride as int),
        r matches Err(e) ==> e == DecodeError::OutOfBounds,
{
    proof {
        lemma_slots_in_bounds::<T>(buf@, base as int, stride as int, 20);
    }
    let r = decode_array::<T, NUM_CARS>(buf, base, stride);
    proof {
        if let Ok(a) = r {
            reveal(car_slots_at);
            assert(a =~= car_slots_at::<T>(buf@, base as int, stride as int));
        }
    }
    r
}

/// Reads the four single-precision numbers of a wheel quad that starts at
/// `offset`.
pub fn parse_wheel_array_f32(buf: &[u8], offset: usize) -> (r: Result<
    WheelQuad<FloatBits>,
    DecodeError,
>)
    ensures
        r is Ok <==> in_bounds(buf@, offset as int, 16),
        r matches Ok(a) ==> a == quad_at::<FloatBits>(buf@, offset as int, 4),
        r matches Err(e) ==> e == DecodeError::OutOfBounds,
{
    proof {
        lemma_slots_in_bounds::<FloatBits>(buf@, offset as int, 4, 4);
    }
    let r = decode_array::<FloatBits, NUM_WHEELS>(buf, offset, 4);
    proof {
        if let Ok(a) = r {
            assert(a =~= quad_at::<FloatBits>(buf@, offset as int, 4));
        }
    }
    r
}

/// Reads the four 16-bit numbers of a wheel quad that starts at `offset`.
pub fn parse_wheel_array_u16(buf: &[u8], offset: usize) -> (r: Result<WheelQuad<u16>, DecodeError>)
    ensures
        r is Ok <==> in_bounds(buf@, offset as int, 8),
        r matches Ok(a) ==> a == quad_at::<u16>(buf@, offset as int, 2),
        r matches Err(e) ==> e == DecodeError::OutOfBounds,
{
    proof {
        lemma_slots_in_bounds::<u16>(buf@, offset as int, 2, 4);
    }
    let r = decode_array::<u16, NUM_WHEELS>(buf, offset, 2);
    proof {
        if let Ok(a) = r {
            assert(a =~= quad_at::<u16>(buf@, offset as int, 2));
        }
    }
    r
}

/// Reads the four bytes of a wheel quad that starts at `offset`.
pub fn parse_wheel_array_u8(buf: &[u8], offset: usize) -> (r: Result<WheelQuad<u8>, DecodeError>)
    ensures
        r is Ok <==> in_bounds(buf@, offset as int, 4),
        r matches Ok(a) ==> a == quad_at::<u8>(buf@, offset as int, 1),
        r matches Err(e) ==> e == DecodeError::OutOfBounds,
{
    proof {
        lemma_slots_in_bounds::<u8>(buf@, offset as int, 1, 4);
    }
    let r = decode_array::<u8, NUM_WHEELS>(buf, offset, 1);
    proof {
        if let Ok(a) = r {
            assert(a =~= quad_at::<u8>(buf@, offset as int, 1));
        }
    }
    r
}

} // verus!
