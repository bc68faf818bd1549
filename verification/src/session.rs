//! Session packet: 149 bytes. A header, the state of the session, and 21
//! marshal zones of 5 bytes each.

use crate::error::DecodeError;
use crate::header::{check_length, length_checked, PacketHeader, HEADER_SIZE};
use crate::walker::{decode_array, lemma_slots_in_bounds, slot_offset, WireRecord};
use crate::wire::{le_float, le_i8, le_u16, read_float, read_i8, read_u16, read_u8, FloatBits};
use vstd::prelude::*;

verus! {

/// Bytes in a session datagram.
pub const SESSION_SIZE: usize = 149;

/// Bytes in a marshal zone.
pub const MARSHAL_ZONE_SIZE: usize = 5;

/// Marshal zones in a session packet.
pub const NUM_MARSHAL_ZONES: usize = 21;

/// The flag shown in a marshal zone.
#[derive(Debug, Clone, Copy, PartialEq, Eq)]
pub enum ZoneFlag {
    Unknown,
    NoFlag,
    Green,
    Blue,
    Yellow,
    Red,
}

/// The flag that a flag byte stands for: 0 is no flag, 1 to 4 are green,
/// blue, yellow and red, and every other number, -1 among them, is unknown.
pub open spec fn zone_flag_of(code: i8) -> ZoneFlag {
    match code {
        0 => ZoneFlag::NoFlag,
        1 => ZoneFlag::Green,
        2 => ZoneFlag::Blue,
        3 => ZoneFlag::Yellow,
        4 => ZoneFlag::Red,
        _ => ZoneFlag::Unknown,
    }
}

/// Classifies the flag byte of a marshal zone. Total: no byte makes it fail.
pub fn get_zone_flag(code: i8) -> (r: ZoneFlag)
    ensures
        r == zone_flag_of(code),
{
    match code {
        0 => ZoneFlag::NoFlag,
        1 => ZoneFlag::Green,
        2 => ZoneFlag::Blue,
        3 => ZoneFlag::Yellow,
        4 => ZoneFlag::Red,
        _ => ZoneFlag::Unknown,
    }
}

/// A stretch of the track with the flag that is shown there.
#[derive(Debug, Clone, Copy, PartialEq, Eq)]
pub struct MarshalZone {
    /// Where the zone starts, as a fraction (0 to 1) of the way round the lap.
    pub zone_start: FloatBits,
    pub flag: ZoneFlag,
}

impl WireRecord for MarshalZone {
    open spec fn width() -> nat {
        MARSHAL_ZONE_SIZE as nat
    }

    open spec fn at(buf: Seq<u8>, off: int) -> Self {
        MarshalZone { zone_start: le_float(buf, off), flag: zone_flag_of(le_i8(buf, off + 4)) }
    }

    fn blank() -> (r: Self) {
        MarshalZone { zone_start: FloatBits { bits: 0 }, flag: ZoneFlag::NoFlag }
    }

    fn decode_at(buf: &[u8], off: usize) -> (r: Result<Self, DecodeError>) {
        if off > buf.len() || buf.len() - off < MARSHAL_ZONE_SIZE {
            return Err(DecodeError::OutOfBounds);
        }
        Ok(
            MarshalZone {
                zone_start: read_float(buf, off)?,
                flag: get_zone_flag(read_i8(buf, off + 4)?),
            },
        )
    }
}

/// The session packet.
#[derive(Debug, Clone, Copy, PartialEq, Eq)]
pub struct SessionData {
    pub header: PacketHeader,
    /// 0 = clear, 1 = light cloud, 2 = overcast, 3 = light rain, 4 = heavy
    /// rain, 5 = storm.
    pub weather: u8,
    /// Track temperature, in degrees Celsius.
    pub track_temp: i8,
    /// Air temperature, in degrees Celsius.
    pub air_temp: i8,
    /// Laps in this race.
    pub total_laps: u8,
    /// Track length, in metres.
    pub track_len: u16,
    /// 0 = unknown, 1 to 3 = practice 1 to 3, 4 = short practice, 5 to 7 =
    /// qualifying 1 to 3, 8 = short qualifying, 9 = one-shot qualifying,
    /// 10 = race, 11 = race 2, 12 = time trial.
    pub session_type: u8,
    /// -1 for unknown, 0 to 21 for the tracks.
    pub track_id: i8,
    /// 0 = F1 modern, 1 = F1 classic, 2 = F2, 3 = F1 generic.
    pub formual: u8,
    /// Time left in the session, in seconds.
    pub session_ttl: u16,
    /// Duration of the session, in seconds.
    pub session_len: u16,
    /// Pit speed limit, in kilometres per hour.
    pub pit_spd_lim: u8,
    /// Whether the game is paused.
    pub is_paused: u8,
    /// Whether the player is spectating.
    pub is_spectating: u8,
    /// Index of the car that is spectated.
    pub spectator_car: u8,
    /// SLI Pro support: 0 = inactive, 1 = active.
    pub sli_native: u8,
    /// How many of the marshal zones that follow carry meaning.
    pub num_zones: u8,
    /// The marshal zones. The wire format always has 21; those from
    /// `num_zones` on are decoded like the others and mean nothing.
    pub zones: [MarshalZone; NUM_MARSHAL_ZONES],
    /// 0 = no safety car, 1 = full safety car, 2 = virtual safety car.
    pub safety_car: u8,
    /// 0 = offline, 1 = online.
    pub is_network_game: u8,
}

/// The 21 marshal zones of which the first starts at `base`.
#[verifier::opaque]
pub open spec fn zones_at(buf: Seq<u8>, base: int) -> [MarshalZone; NUM_MARSHAL_ZONES] {
    [
        MarshalZone::at(buf, slot_offset(base, MARSHAL_ZONE_SIZE as int, 0)),
        MarshalZone::at(buf, slot_offset(base, MARSHAL_ZONE_SIZE as int, 1)),
        MarshalZone::at(buf, slot_offset(base, MARSHAL_ZONE_SIZE as int, 2)),
        MarshalZone::at(buf, slot_offset(base, MARSHAL_ZONE_SIZE as int, 3)),
        MarshalZone::at(buf, slot_offset(base, MARSHAL_ZONE_SIZE as int, 4)),
        MarshalZone::at(buf, slot_offset(base, MARSHAL_ZONE_SIZE as int, 5)),
        MarshalZone::at(buf, slot_offset(base, MARSHAL_ZONE_SIZE as int, 6)),
        MarshalZone::at(buf, slot_offset(base, MARSHAL_ZONE_SIZE as int, 7)),
        MarshalZone::at(buf, slot_offset(base, MARSHAL_ZONE_SIZE as int, 8)),
        MarshalZone::at(buf, slot_offset(base, MARSHAL_ZONE_SIZE as int, 9)),
        MarshalZone::at(buf, slot_offset(base, MARSHAL_ZONE_SIZE as int, 10)),
        MarshalZone::at(buf, slot_offset(base, MARSHAL_ZONE_SIZE as int, 11)),
        MarshalZone::at(buf, slot_offset(base, MARSHAL_ZONE_SIZE as int, 12)),
        MarshalZone::at(buf, slot_offset(base, MARSHAL_ZONE_SIZE as int, 13)),
        MarshalZone::at(buf, slot_offset(base, MARSHAL_ZONE_SIZE as int, 14)),
        MarshalZone::at(buf, slot_offset(base, MARSHAL_ZONE_SIZE as int, 15)),
        MarshalZone::at(buf, slot_offset(base, MARSHAL_ZONE_SIZE as int, 16)),
        MarshalZone::at(buf, slot_offset(base, MARSHAL_ZONE_SIZE as int, 17)),
        MarshalZone::at(buf, slot_offset(base, MARSHAL_ZONE_SIZE as int, 18)),
        MarshalZone::at(buf, slot_offset(base, MARSHAL_ZONE_SIZE as int, 19)),
        MarshalZone::at(buf, slot_offset(base, MARSHAL_ZONE_SIZE as int, 20)),
    ]
}

/// Zone `i` of the 21 is the one at `base + 5 * i`.
pub proof fn lemma_zone(buf: Seq<u8>, base: int, i: int)
    requires
        0 <= i < 21,
    ensures
        zones_at(buf, base)[i] == MarshalZone::at(
            buf,
            slot_offset(base, MARSHAL_ZONE_SIZE as int, i),
        ),
{
    reveal(zones_at);
}

/// The session packet that `buf` holds behind `header`.
pub open spec fn session_data_at(buf: Seq<u8>, header: PacketHeader) -> SessionData {
    let p = HEADER_SIZE as int;
    SessionData {
        header,
        weather: buf[p],
        track_temp: le_i8(buf, p + 1),
        air_temp: le_i8(buf, p + 2),
        total_laps: buf[p + 3],
        track_len: le_u16(buf, p + 4),
        session_type: buf[p + 6],
        track_id: le_i8(buf, p + 7),
        formual: buf[p + 8],
        session_ttl: le_u16(buf, p + 9),
        session_len: le_u16(buf, p + 11),
        pit_spd_lim: buf[p + 13],
        is_paused: buf[p + 14],
        is_spectating: buf[p + 15],
        spectator_car: buf[p + 16],
        sli_native: buf[p + 17],
        num_zones: buf[p + 18],
        zones: zones_at(buf, p + 19),
        safety_car: buf[p + 124],
        is_network_game: buf[p + 125],
    }
}

/// What `parse_session_data` makes of a datagram of `length` bytes.
pub open spec fn decoded_session(buf: Seq<u8>, header: PacketHeader, length: int) -> Result<
    SessionData,
    DecodeError,
> {
    match length_checked(buf.len() as int, length, SESSION_SIZE as int) {
        Ok(_) => Ok(session_data_at(buf, header)),
        Err(e) => Err(e),
    }
}

/// Decodes the 21 marshal zones of a datagram.
pub fn parse_marshal_zones(buf: &[u8]) -> (r: Result<[MarshalZone; NUM_MARSHAL_ZONES], DecodeError>)
    ensures
        r is Ok <==> buf@.len() >= HEADER_SIZE + 19 + 21 * MARSHAL_ZONE_SIZE,
        r matches Ok(a) ==> a == zones_at(buf@, HEADER_SIZE + 19),
        r matches Err(e) ==> e == DecodeError::OutOfBounds,
{
    let base: usize = HEADER_SIZE + 19;
    proof {
        lemma_slots_in_bounds::<MarshalZone>(buf@, base as int, MARSHAL_ZONE_SIZE as int, 21);
    }
    let r = decode_array::<MarshalZone, NUM_MARSHAL_ZONES>(buf, base, MARSHAL_ZONE_SIZE);
    proof {
        if let Ok(a) = r {
            reveal(zones_at);
            assert(a =~= zones_at(buf@, base as int));
        }
    }
    r
}

/// Decodes a session packet. The datagram must have exactly `SESSION_SIZE`
/// bytes, or it is a `LengthMismatch`.
pub fn parse_session_data(buf: &[u8], header: PacketHeader, length: usize) -> (r: Result<
    SessionData,
    DecodeError,
>)
    ensures
        r == decoded_session(buf@, header, length as int),
{
    check_length(buf, length, SESSION_SIZE)?;
    let p: usize = HEADER_SIZE;
    Ok(
        SessionData {
            header,
            weather: read_u8(buf, p)?,
            track_temp: read_i8(buf, p + 1)?,
            air_temp: read_i8(buf, p + 2)?,
            total_laps: read_u8(buf, p + 3)?,
            track_len: read_u16(buf, p + 4)?,
            session_type: read_u8(buf, p + 6)?,
            track_id: read_i8(buf, p + 7)?,
            formual: read_u8(buf, p + 8)?,
            session_ttl: read_u16(buf, p + 9)?,
            session_len: read_u16(buf, p + 11)?,
            pit_spd_lim: read_u8(buf, p + 13)?,
            is_paused: read_u8(buf, p + 14)?,
            is_spectating: read_u8(buf, p + 15)?,
            spectator_car: read_u8(buf, p + 16)?,
            sli_native: read_u8(buf, p + 17)?,
            num_zones: read_u8(buf, p + 18)?,
            zones: parse_marshal_zones(buf)?,
            safety_car: read_u8(buf, p + 124)?,
            is_network_game: read_u8(buf, p + 125)?,
        },
    )
}

} // verus!
