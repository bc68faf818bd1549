use vstd::prelude::*;

verus! {

/// Why a datagram, or a part of one, was not decoded. None of these is fatal:
/// the datagram at hand is dropped and the next one is awaited.
#[derive(Debug, Clone, Copy, PartialEq, Eq)]
pub enum DecodeError {
    /// A field would lie, in part or wholly, beyond the end of the buffer.
    OutOfBounds,
    /// The datagram's length is not the fixed size of its packet type.
    LengthMismatch,
    /// The packet type byte, or the code of an event, is not a known one.
    UnrecognizedType,
    /// The datagram is shorter than a header and the smallest payload.
    TooShort,
}

} // verus!
