//! Lap packet: 843 bytes, a header and twenty records of 41 bytes.

use crate::error::DecodeError;
use crate::header::{check_length, length_checked, PacketHeader, HEADER_SIZE};
use crate::walker::{car_slots_at, decode_car_slots, CarSlotArray, WireRecord};
use crate::wire::{le_float, read_float, read_u8, FloatBits};
use vstd::prelude::*;

verus! {

/// Bytes in a lap datagram.
pub const LAP_SIZE: usize = 843;

/// Bytes in the lap data of one car.
pub const CAR_LAP_SIZE: usize = 41;

/// The lap data of one car. Times are in seconds, distances in metres; a
/// distance can be negative while the line has not been crossed yet.
#[derive(Debug, Clone, Copy, PartialEq, Eq)]
pub struct LapData {
    /// Time of the last lap.
    pub last_lap: FloatBits,
    /// Time into the current lap.
    pub current_lap: FloatBits,
    /// Best lap time of the session.
    pub best_lap: FloatBits,
    /// Time of sector 1.
    pub best_sec_1: FloatBits,
    /// Time of sector 2.
    pub best_sec_2: FloatBits,
    /// Distance round the current lap.
    pub lap_distance: FloatBits,
    /// Distance travelled in the session.
    pub total_distance: FloatBits,
    /// Delta for the safety car.
    pub safety_car_delta: FloatBits,
    /// Race position.
    pub position: u8,
    /// Number of the current lap.
    pub lap_num: u8,
    /// 0 = none, 1 = pitting, 2 = in pit area.
    pub pit_status: u8,
    /// 0 = sector 1, 1 = sector 2, 2 = sector 3.
    pub sector: u8,
    /// 0 = the current lap is valid, 1 = it is not.
    pub is_lap_valid: u8,
    /// Accumulated time penalties, in seconds.
    pub penalties: u8,
    /// Grid position at the start of the race.
    pub grid_position: u8,
    /// 0 = in garage, 1 = flying lap, 2 = in lap, 3 = out lap, 4 = on track.
    pub driver_status: u8,
    /// 0 = invalid, 1 = inactive, 2 = active, 3 = finished, 4 = disqualified,
    /// 5 = not classified, 6 = retired.
    pub result_status: u8,
}

impl WireRecord for LapData {
    open spec fn width() -> nat {
        CAR_LAP_SIZE as nat
    }

    open spec fn at(buf: Seq<u8>, off: int) -> Self {
        LapData {
            last_lap: le_float(buf, off),
            current_lap: le_float(buf, off + 4),
            best_lap: le_float(buf, off + 8),
            best_sec_1: le_float(buf, off + 12),
            best_sec_2: le_float(buf, off + 16),
            lap_distance: le_float(buf, off + 20),
            total_distance: le_float(buf, off + 24),
            safety_car_delta: le_float(buf, off + 28),
            position: buf[off + 32],
            lap_num: buf[off + 33],
            pit_status: buf[off + 34],
            sector: buf[off + 35],
            is_lap_valid: buf[off + 36],
            penalties: buf[off + 37],
            grid_position: buf[off + 38],
            driver_status: buf[off + 39],
            result_status: buf[off + 40],
        }
    }

    fn blank() -> (r: Self) {
        let zero = FloatBits { bits: 0 };
        LapData {
            last_lap: zero,
            current_lap: zero,
            best_lap: zero,
            best_sec_1: zero,
            best_sec_2: zero,
            lap_distance: zero,
            total_distance: zero,
            safety_car_delta: zero,
            position: 0,
            lap_num: 0,
            pit_status: 0,
            sector: 0,
            is_lap_valid: 0,
            penalties: 0,
            grid_position: 0,
            driver_status: 0,
            result_status: 0,
        }
    }

    fn decode_at(buf: &[u8], off: usize) -> (r: Result<Self, DecodeError>) {
        if off > buf.len() || buf.len() - off < CAR_LAP_SIZE {
            return Err(DecodeError::OutOfBounds);
        }
        Ok(
            LapData {
                last_lap: read_float(buf, off)?,
                current_lap: read_float(buf, off + 4)?,
                best_lap: read_float(buf, off + 8)?,
                best_sec_1: read_float(buf, off + 12)?,
                best_sec_2: read_float(buf, off + 16)?,
                lap_distance: read_float(buf, off + 20)?,
                total_distance: read_float(buf, off + 24)?,
                safety_car_delta: read_float(buf, off + 28)?,
                position: read_u8(buf, off + 32)?,
                lap_num: read_u8(buf, off + 33)?,
                pit_status: read_u8(buf, off + 34)?,
                sector: read_u8(buf, off + 35)?,
                is_lap_valid: read_u8(buf, off + 36)?,
                penalties: read_u8(buf, off + 37)?,
                grid_position: read_u8(buf, off + 38)?,
                driver_status: read_u8(buf, off + 39)?,
                result_status: read_u8(buf, off + 40)?,
            },
        )
    }
}

/// The lap packet.
#[derive(Debug, Clone, Copy, PartialEq, Eq)]
pub struct Lap {
    pub header: PacketHeader,
    /// The lap data of each car.
    pub lap_data: CarSlotArray<LapData>,
}

/// The lap packet that `buf` holds behind `header`.
pub open spec fn lap_at(buf: Seq<u8>, header: PacketHeader) -> Lap {
    Lap { header, lap_data: car_slots_at::<LapData>(buf, HEADER_SIZE as int, CAR_LAP_SIZE as int) }
}

/// What `parse_lap_data` makes of a datagram of `length` bytes.
pub open spec fn decoded_lap(buf: Seq<u8>, header: PacketHeader, length: int) -> Result<
    Lap,
    DecodeError,
> {
    match length_checked(buf.len() as int, length, LAP_SIZE as int) {
        Ok(_) => Ok(lap_at(buf, header)),
        Err(e) => Err(e),
    }
}

/// Decodes the lap data of each of the twenty cars of a datagram.
pub fn parse_car_laps(buf: &[u8]) -> (r: Result<CarSlotArray<LapData>, DecodeError>)
    ensures
        r is Ok <==> buf@.len() >= LAP_SIZE,
        r matches Ok(a) ==> a == car_slots_at::<LapData>(
            buf@,
            HEADER_SIZE as int,
            CAR_LAP_SIZE as int,
        ),
        r matches Err(e) ==> e == DecodeError::OutOfBounds,
{
    decode_car_slots::<LapData>(buf, HEADER_SIZE, CAR_LAP_SIZE)
}

/// Decodes a lap packet. The datagram must have exactly `LAP_SIZE` bytes, or
/// it is a `LengthMismatch`.
pub fn parse_lap_data(buf: &[u8], header: PacketHeader, length: usize) -> (r: Result<
    Lap,
    DecodeError,
>)
    ensures
        r == decoded_lap(buf@, header, length as int),
{
    check_length(buf, length, LAP_SIZE)?;
    Ok(Lap { header, lap_data: parse_car_laps(buf)? })
}

} // verus!
