//! Event packet: a header, a four-letter code, and what the code calls for.
//!
//! This is the one payload without a fixed size. The code alone takes four
//! bytes; a car index may follow it, and a lap time may follow that, which
//! makes nine bytes at most.
//!
//! A code is recognised by the sum of its four bytes, held against a closed
//! table of nine sums, one for each code of this version of the feed. The
//! nine are pairwise different, so no two codes of the feed are taken for one
//! another; other bytes with one of these sums are taken for the code that
//! has it.

use crate::error::DecodeError;
use crate::header::{PacketHeader, HEADER_SIZE};
use crate::wire::{le_float, read_float, read_u8, FloatBits};
use vstd::prelude::*;
use vstd::slice::slice_subrange;

verus! {

/// Bytes in the code of an event.
pub const EVENT_CODE_SIZE: usize = 4;

/// What happened.
#[derive(Debug, Clone, Copy, PartialEq, Eq)]
pub enum EventType {
    /// "SSTA": the session started.
    SessionStarted,
    /// "SEND": the session ended.
    SessionEnded,
    /// "FTLP": a driver set the fastest lap.
    FastestLap,
    /// "RTMT": a driver retired.
    Retirement,
    /// "DRSE": race control enabled DRS.
    DrsEnabled,
    /// "DRSD": race control disabled DRS.
    DrsDisabled,
    /// "TMPT": the player's team mate is in the pits.
    TeamMateInPits,
    /// "CHQF": the chequered flag was waved.
    ChequeredFlag,
    /// "RCWN": the race winner was announced.
    RaceWinner,
}

/// The sum of the four bytes of a code. 'S' is 83, 'T' is 84 and 'A' is 65,
/// so the sum of "SSTA" is 315.
pub open spec fn code_sum(code: Seq<u8>) -> int {
    code[0] + code[1] + code[2] + code[3]
}

/// The table of the nine known sums.
pub open spec fn event_type_of_sum(sum: int) -> Option<EventType> {
    if sum == 315 {
        Some(EventType::SessionStarted)
    } else if sum == 298 {
        Some(EventType::SessionEnded)
    } else if sum == 310 {
        Some(EventType::FastestLap)
    } else if sum == 327 {
        Some(EventType::Retirement)
    } else if sum == 302 {
        Some(EventType::DrsEnabled)
    } else if sum == 301 {
        Some(EventType::DrsDisabled)
    } else if sum == 325 {
        Some(EventType::TeamMateInPits)
    } else if sum == 290 {
        Some(EventType::ChequeredFlag)
    } else if sum == 314 {
        Some(EventType::RaceWinner)
    } else {
        None
    }
}

/// The four letters that the feed sends for an event, as bytes.
pub open spec fn mnemonic(event_type: EventType) -> Seq<u8> {
    match event_type {
        EventType::SessionStarted => seq![83u8, 83u8, 84u8, 65u8],
        EventType::SessionEnded => seq![83u8, 69u8, 78u8, 68u8],
        EventType::FastestLap => seq![70u8, 84u8, 76u8, 80u8],
        EventType::Retirement => seq![82u8, 84u8, 77u8, 84u8],
        EventType::DrsEnabled => seq![68u8, 82u8, 83u8, 69u8],
        EventType::DrsDisabled => seq![68u8, 82u8, 83u8, 68u8],
        EventType::TeamMateInPits => seq![84u8, 77u8, 80u8, 84u8],
        EventType::ChequeredFlag => seq![67u8, 72u8, 81u8, 70u8],
        EventType::RaceWinner => seq![82u8, 67u8, 87u8, 78u8],
    }
}

/// Whether an event of this type names a car.
pub open spec fn names_car(event_type: EventType) -> bool {
    event_type == EventType::FastestLap || event_type == EventType::Retirement || event_type
        == EventType::TeamMateInPits || event_type == EventType::RaceWinner
}

/// Whether an event of this type carries a lap time.
pub open spec fn carries_lap_time(event_type: EventType) -> bool {
    event_type == EventType::FastestLap
}

/// The event packet.
#[derive(Debug, Clone, Copy, PartialEq, Eq)]
pub struct Event {
    pub header: PacketHeader,
    pub event_type: EventType,
    /// The car that the event is about: present for the fastest lap, a
    /// retirement, the team mate in the pits and the race winner, and for no
    /// other event. Every index is a value here, 255 too.
    pub car_idx: Option<u8>,
    /// The lap time in seconds: present for the fastest lap, and for no other
    /// event.
    pub lap_time: Option<FloatBits>,
}

impl Event {
    /// The optional fields are present exactly when the event type calls for
    /// them.
    pub open spec fn well_formed(&self) -> bool {
        &&& self.car_idx is Some <==> names_car(self.event_type)
        &&& self.lap_time is Some <==> carries_lap_time(self.event_type)
    }
}

/// What `parse_event_identifier` makes of the bytes of a payload.
pub open spec fn decoded_event_type(payload: Seq<u8>) -> Result<EventType, DecodeError> {
    if payload.len() < EVENT_CODE_SIZE {
        Err(DecodeError::OutOfBounds)
    } else {
        match event_type_of_sum(code_sum(payload)) {
            Some(event_type) => Ok(event_type),
            None => Err(DecodeError::UnrecognizedType),
        }
    }
}

/// How many bytes the payload of an event of this type takes.
pub open spec fn event_payload_size(event_type: EventType) -> int {
    if carries_lap_time(event_type) {
        9
    } else if names_car(event_type) {
        5
    } else {
        4
    }
}

/// The event of type `event_type` that `payload` holds.
pub open spec fn event_at(payload: Seq<u8>, event_type: EventType, header: PacketHeader) -> Event {
    Event {
        header,
        event_type,
        car_idx: if names_car(event_type) {
            Some(payload[4])
        } else {
            None
        },
        lap_time: if carries_lap_time(event_type) {
            Some(le_float(payload, 5))
        } else {
            None
        },
    }
}

/// What `parse_multipart_event` makes of a payload.
pub open spec fn decoded_event_fields(
    payload: Seq<u8>,
    event_type: EventType,
    header: PacketHeader,
) -> Result<Event, DecodeError> {
    if payload.len() < event_payload_size(event_type) {
        Err(DecodeError::OutOfBounds)
    } else {
        Ok(event_at(payload, event_type, header))
    }
}

/// What `parse_event_data` makes of the datagram that `buf` holds.
pub open spec fn decoded_event(buf: Seq<u8>, header: PacketHeader) -> Result<Event, DecodeError> {
    if buf.len() < HEADER_SIZE {
        Err(DecodeError::OutOfBounds)
    } else {
        let payload = buf.subrange(HEADER_SIZE as int, buf.len() as int);
        match decoded_event_type(payload) {
            Ok(event_type) => decoded_event_fields(payload, event_type, header),
            Err(e) => Err(e),
        }
    }
}

/// Tells which event the first four bytes of a payload stand for.
///
/// Fewer than four bytes are `OutOfBounds`; four bytes whose sum is none of
/// the nine known sums are an `UnrecognizedType`.
pub fn parse_event_identifier(ascii_bytes: &[u8]) -> (r: Result<EventType, DecodeError>)
    ensures
        r == decoded_event_type(ascii_bytes@),
{
    if ascii_bytes.len() < EVENT_CODE_SIZE {
        return Err(DecodeError::OutOfBounds);
    }
    let b0: u32 = read_u8(ascii_bytes, 0)? as u32;
    let b1: u32 = read_u8(ascii_bytes, 1)? as u32;
    let b2: u32 = read_u8(ascii_bytes, 2)? as u32;
    let b3: u32 = read_u8(ascii_bytes, 3)? as u32;
    let added_bytes: u32 = b0 + b1 + b2 + b3;
    match added_bytes {
        315 => Ok(EventType::SessionStarted),
        298 => Ok(EventType::SessionEnded),
        310 => Ok(EventType::FastestLap),
        327 => Ok(EventType::Retirement),
        302 => Ok(EventType::DrsEnabled),
        301 => Ok(EventType::DrsDisabled),
        325 => Ok(EventType::TeamMateInPits),
        290 => Ok(EventType::ChequeredFlag),
        314 => Ok(EventType::RaceWinner),
        _ => Err(DecodeError::UnrecognizedType),
    }
}

/// Decodes what follows the code of an event: the car index, in the byte
/// behind the code, for the events that name a car, and the lap time, in the
/// four bytes behind the car index, for the fastest lap. For an event that
/// carries neither, nothing behind the code is read.
pub fn parse_multipart_event(bytes: &[u8], event_type: EventType, header: PacketHeader) -> (r:
    Result<Event, DecodeError>)
    ensures
        r == decoded_event_fields(bytes@, event_type, header),
        r matches Ok(event) ==> event.well_formed(),
{
    match event_type {
        EventType::FastestLap => {
            if bytes.len() < 9 {
                return Err(DecodeError::OutOfBounds);
            }
            let car_idx = read_u8(bytes, EVENT_CODE_SIZE)?;
            let lap_time = read_float(bytes, EVENT_CODE_SIZE + 1)?;
            Ok(Event { header, event_type, car_idx: Some(car_idx), lap_time: Some(lap_time) })
        },
        EventType::Retirement | EventType::TeamMateInPits | EventType::RaceWinner => {
            if bytes.len() < 5 {
                return Err(DecodeError::OutOfBounds);
            }
            let car_idx = read_u8(bytes, EVENT_CODE_SIZE)?;
            Ok(Event { header, event_type, car_idx: Some(car_idx), lap_time: None })
        },
        _ => {
            if bytes.len() < EVENT_CODE_SIZE {
                return Err(DecodeError::OutOfBounds);
            }
            Ok(Event { header, event_type, car_idx: None, lap_time: None })
        },
    }
}

/// Decodes an event packet from the datagram that `buf` holds.
///
/// No length is held against a fixed size here: the code decides how many
/// bytes are read, and each of them has to lie inside `buf`.
pub fn parse_event_data(buf: &[u8], header: PacketHeader) -> (r: Result<Event, DecodeError>)
    ensures
        r == decoded_event(buf@, header),
        r matches Ok(event) ==> event.well_formed(),
{
    if buf.len() < HEADER_SIZE {
        return Err(DecodeError::OutOfBounds);
    }
    let evt_slice = slice_subrange(buf, HEADER_SIZE, buf.len());
    let event_type = parse_event_identifier(evt_slice)?;
    parse_multipart_event(evt_slice, event_type, header)
}

/// The nine sums of the table are those of the nine codes of the feed: each
/// code is recognised as its own event, and so no two of them as the same.
pub proof fn lemma_mnemonics_are_told_apart(event_type: EventType)
    ensures
        mnemonic(event_type).len() == 4,
        event_type_of_sum(code_sum(mnemonic(event_type))) == Some(event_type),
        decoded_event_type(mnemonic(event_type)) == Ok::<EventType, DecodeError>(event_type),
{
}

/// Four code bytes that sum to 315 are "session started", with no car index
/// and no lap time, whatever follows them.
pub proof fn lemma_sum_315_is_session_started(buf: Seq<u8>, header: PacketHeader)
    requires
        buf.len() >= HEADER_SIZE + 4,
        buf[23] + buf[24] + buf[25] + buf[26] == 315,
    ensures
        decoded_event(buf, header) == Ok::<Event, DecodeError>(
            Event { header, event_type: EventType::SessionStarted, car_idx: None, lap_time: None },
        ),
{
}

/// Four code bytes that sum to 310 are "fastest lap". The event needs the
/// byte behind the code for its car index and the four bytes behind that for
/// its lap time: with all five in the buffer it carries both, and with fewer
/// it is not decoded.
pub proof fn lemma_sum_310_is_fastest_lap(buf: Seq<u8>, header: PacketHeader)
    requires
        buf.len() >= HEADER_SIZE + 4,
        buf[23] + buf[24] + buf[25] + buf[26] == 310,
    ensures
        buf.len() >= HEADER_SIZE + 9 ==> decoded_event(buf, header) == Ok::<Event, DecodeError>(
            Event {
                header,
                event_type: EventType::FastestLap,
                car_idx: Some(buf[27]),
                lap_time: Some(le_float(buf, 28)),
            },
        ),
        buf.len() < HEADER_SIZE + 9 ==> decoded_event(buf, header) == Err::<Event, DecodeError>(
            DecodeError::OutOfBounds,
        ),
{
}

} // verus!
