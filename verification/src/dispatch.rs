//! Dispatcher: from a received datagram to a typed record, or to the reason
//! why the datagram is ignored.
//!
//! A receive buffer is usually larger than the datagram in it. Only the first
//! `length` bytes of the buffer are the datagram; what lies behind them is
//! never read.

use crate::error::DecodeError;
use crate::event::{decoded_event, parse_event_data, Event};
use crate::header::{
    decoded_header, packet_type_of, parse_header, PacketHeader, PacketType, HEADER_SIZE,
    MIN_PACKET_SIZE,
};
use crate::lap::{decoded_lap, parse_lap_data, Lap, LAP_SIZE};
use crate::motion::{decoded_motion, parse_motion_data, MotionData, MOTION_SIZE};
use crate::participants::{
    decoded_participants, parse_participant_data, Participants, PARTICIPANTS_SIZE,
};
use crate::session::{decoded_session, parse_session_data, SessionData, SESSION_SIZE};
use crate::setups::{decoded_setups, parse_setups, CarSetups, CARSETUPS_SIZE};
use crate::status::{decoded_car_status_data, parse_car_status_data, CarStatusData, STATUS_SIZE};
use crate::telemetry::{decoded_telemetry, parse_telemetry_data, Telemetry, TELEMETRY_SIZE};
use vstd::prelude::*;
use vstd::slice::slice_subrange;

verus! {

/// What became of a datagram: the record it holds, or the reason why it is
/// ignored. To ignore a datagram is no failure of the receiver: the telemetry
/// of that frame is lost, and the next datagram is decoded like any other.
#[derive(Debug, Clone, Copy, PartialEq, Eq)]
pub enum DecodedPacket {
    Motion(MotionData),
    Session(SessionData),
    Lap(Lap),
    Event(Event),
    Participants(Participants),
    Setups(CarSetups),
    Telemetry(Telemetry),
    CarStatus(CarStatusData),
    Ignored(DecodeError),
}

/// The bytes of the datagram: the first `length` bytes of the buffer, or all
/// of it where it holds fewer.
pub open spec fn datagram(buf: Seq<u8>, length: int) -> Seq<u8> {
    if 0 <= length <= buf.len() {
        buf.subrange(0, length)
    } else {
        buf
    }
}

/// The size that a datagram of this type must have, for the seven types that
/// have one.
pub open spec fn fixed_size(packet_type: PacketType) -> Option<int> {
    match packet_type {
        PacketType::Motion => Some(MOTION_SIZE as int),
        PacketType::Session => Some(SESSION_SIZE as int),
        PacketType::Lap => Some(LAP_SIZE as int),
        PacketType::Participant => Some(PARTICIPANTS_SIZE as int),
        PacketType::Setup => Some(CARSETUPS_SIZE as int),
        PacketType::Telemetry => Some(TELEMETRY_SIZE as int),
        PacketType::CarStatus => Some(STATUS_SIZE as int),
        PacketType::Event => None,
        PacketType::Unrecognized => None,
    }
}

/// What the payload decoder of the header's packet type makes of a datagram.
pub open spec fn decoded_payload(data: Seq<u8>, header: PacketHeader, length: int) -> DecodedPacket {
    match header.packet_type {
        PacketType::Motion => match decoded_motion(data, header, length) {
            Ok(p) => DecodedPacket::Motion(p),
            Err(e) => DecodedPacket::Ignored(e),
        },
        PacketType::Session => match decoded_session(data, header, length) {
            Ok(p) => DecodedPacket::Session(p),
            Err(e) => DecodedPacket::Ignored(e),
        },
        PacketType::Lap => match decoded_lap(data, header, length) {
            Ok(p) => DecodedPacket::Lap(p),
            Err(e) => DecodedPacket::Ignored(e),
        },
        PacketType::Event => match decoded_event(data, header) {
            Ok(p) => DecodedPacket::Event(p),
            Err(e) => DecodedPacket::Ignored(e),
        },
        PacketType::Participant => match decoded_participants(data, header, length) {
            Ok(p) => DecodedPacket::Participants(p),
            Err(e) => DecodedPacket::Ignored(e),
        },
        PacketType::Setup => match decoded_setups(data, header, length) {
            Ok(p) => DecodedPacket::Setups(p),
            Err(e) => DecodedPacket::Ignored(e),
        },
        PacketType::Telemetry => match decoded_telemetry(data, header, length) {
            Ok(p) => DecodedPacket::Telemetry(p),
            Err(e) => DecodedPacket::Ignored(e),
        },
        PacketType::CarStatus => match decoded_car_status_data(data, header, length) {
            Ok(p) => DecodedPacket::CarStatus(p),
            Err(e) => DecodedPacket::Ignored(e),
        },
        PacketType::Unrecognized => DecodedPacket::Ignored(DecodeError::UnrecognizedType),
    }
}

/// What `dispatch` makes of a datagram of `length` bytes held in `buf`.
pub open spec fn decoded_packet(buf: Seq<u8>, length: int) -> DecodedPacket {
    let data = datagram(buf, length);
    match decoded_header(data, length) {
        Ok(header) => decoded_payload(data, header, length),
        Err(e) => DecodedPacket::Ignored(e),
    }
}

/// Decodes the datagram of `length` bytes that `buf` holds.
///
/// The header is decoded first. Where that fails, or the packet type is
/// `Unrecognized`, the datagram is ignored and no payload decoder runs.
/// Otherwise the payload decoder of the packet type runs, and what it rejects
/// is ignored as well. Nothing is tried twice.
pub fn dispatch(buf: &[u8], length: usize) -> (r: DecodedPacket)
    ensures
        r == decoded_packet(buf@, length as int),
{
    let data = if length <= buf.len() {
        slice_subrange(buf, 0, length)
    } else {
        buf
    };
    let header = match parse_header(data, length) {
        Ok(header) => header,
        Err(e) => {
            return DecodedPacket::Ignored(e);
        },
    };
    match header.get_type() {
        PacketType::Motion => match parse_motion_data(data, header, length) {
            Ok(p) => DecodedPacket::Motion(p),
            Err(e) => DecodedPacket::Ignored(e),
        },
        PacketType::Session => match parse_session_data(data, header, length) {
            Ok(p) => DecodedPacket::Session(p),
            Err(e) => DecodedPacket::Ignored(e),
        },
        PacketType::Lap => match parse_lap_data(data, header, length) {
            Ok(p) => DecodedPacket::Lap(p),
            Err(e) => DecodedPacket::Ignored(e),
        },
        PacketType::Event => match parse_event_data(data, header) {
            Ok(p) => DecodedPacket::Event(p),
            Err(e) => DecodedPacket::Ignored(e),
        },
        PacketType::Participant => match parse_participant_data(data, header, length) {
            Ok(p) => DecodedPacket::Participants(p),
            Err(e) => DecodedPacket::Ignored(e),
        },
        PacketType::Setup => match parse_setups(data, header, length) {
            Ok(p) => DecodedPacket::Setups(p),
            Err(e) => DecodedPacket::Ignored(e),
        },
        PacketType::Telemetry => match parse_telemetry_data(data, header, length) {
            Ok(p) => DecodedPacket::Telemetry(p),
            Err(e) => DecodedPacket::Ignored(e),
        },
        PacketType::CarStatus => match parse_car_status_data(data, header, length) {
            Ok(p) => DecodedPacket::CarStatus(p),
            Err(e) => DecodedPacket::Ignored(e),
        },
        PacketType::Unrecognized => DecodedPacket::Ignored(DecodeError::UnrecognizedType),
    }
}

/// A datagram shorter than a header and the smallest payload is ignored as
/// `TooShort`, whatever the buffer holds: no byte of it decides anything.
pub proof fn lemma_short_datagram_is_ignored(buf: Seq<u8>, length: int)
    requires
        length < MIN_PACKET_SIZE,
    ensures
        decoded_packet(buf, length) == DecodedPacket::Ignored(DecodeError::TooShort),
{
}

/// A datagram of a packet type with a fixed size is ignored unless its length
/// is that size. One byte short is enough. Where the datagram is long enough
/// for a header to be read, the reason is `LengthMismatch`.
pub proof fn lemma_wrong_length_is_ignored(buf: Seq<u8>, length: int, size: int)
    requires
        buf.len() > 5,
        fixed_size(packet_type_of(buf[5])) == Some(size),
        length != size,
    ensures
        decoded_packet(buf, length) is Ignored,
        length >= MIN_PACKET_SIZE && buf.len() >= HEADER_SIZE ==> decoded_packet(buf, length)
            == DecodedPacket::Ignored(DecodeError::LengthMismatch),
{
}

/// A record of a packet type with a fixed size comes only from a datagram of
/// exactly that size, all of which the buffer holds.
pub proof fn lemma_record_has_exact_length(buf: Seq<u8>, length: int)
    ensures
        match decoded_packet(buf, length) {
            DecodedPacket::Motion(_) => length == MOTION_SIZE <= buf.len(),
            DecodedPacket::Session(_) => length == SESSION_SIZE <= buf.len(),
            DecodedPacket::Lap(_) => length == LAP_SIZE <= buf.len(),
            DecodedPacket::Participants(_) => length == PARTICIPANTS_SIZE <= buf.len(),
            DecodedPacket::Setups(_) => length == CARSETUPS_SIZE <= buf.len(),
            DecodedPacket::Telemetry(_) => length == TELEMETRY_SIZE <= buf.len(),
            DecodedPacket::CarStatus(_) => length == STATUS_SIZE <= buf.len(),
            DecodedPacket::Event(_) => length >= MIN_PACKET_SIZE,
            DecodedPacket::Ignored(_) => true,
        },
{
}

/// A type byte above 7 gives a valid header of type `Unrecognized`, and the
/// datagram is ignored without a look at its payload.
pub proof fn lemma_unknown_type_is_ignored(buf: Seq<u8>, length: int)
    requires
        length >= MIN_PACKET_SIZE,
        buf.len() >= HEADER_SIZE,
        buf[5] > 7,
    ensures
        decoded_header(buf, length) matches Ok(header) && header.packet_type
            == PacketType::Unrecognized,
        decoded_packet(buf, length) == DecodedPacket::Ignored(DecodeError::UnrecognizedType),
{
}

/// Decoding is a function of the datagram alone: two buffers that hold the
/// same `length` bytes at their start decode to equal results, whatever lies
/// behind those bytes. So the same buffer, decoded twice, gives two equal
/// records.
pub proof fn lemma_equal_datagrams_decode_equal(a: Seq<u8>, b: Seq<u8>, length: int)
    requires
        0 <= length <= a.len(),
        length <= b.len(),
        forall|i: int| 0 <= i < length ==> a[i] == b[i],
    ensures
        decoded_packet(a, length) == decoded_packet(b, length),
{
    assert(datagram(a, length) =~= datagram(b, length));
}

} // verus!
