//! Car setups packet: 843 bytes, a header and twenty records of 41 bytes.
//! In a multiplayer game the setups of the other players' cars are blank.

use crate::error::DecodeError;
use crate::header::{check_length, length_checked, PacketHeader, HEADER_SIZE};
use crate::walker::{car_slots_at, decode_car_slots, CarSlotArray, WireRecord};
use crate::wire::{le_float, read_float, read_u8, FloatBits};
use vstd::prelude::*;

verus! {

/// Bytes in a car setups datagram.
pub const CARSETUPS_SIZE: usize = 843;

/// Bytes in the setup of one car.
pub const CAR_SETUP_SIZE: usize = 41;

/// The setup of one car.
#[derive(Debug, Clone, Copy, PartialEq, Eq)]
pub struct CarSetupData {
    /// Front wing aero.
    pub front_wing: u8,
    /// Rear wing aero.
    pub rear_wing: u8,
    /// Differential adjustment on throttle, in percent.
    pub on_throttle: u8,
    /// Differential adjustment off throttle, in percent.
    pub off_throttle: u8,
    /// Front camber angle.
    pub front_camber: FloatBits,
    /// Rear camber angle.
    pub rear_camber: FloatBits,
    /// Front toe angle.
    pub front_toe: FloatBits,
    /// Rear toe angle.
    pub rear_toe: FloatBits,
    pub front_suspension: u8,
    pub rear_suspension: u8,
    pub front_anti_roll_bar: u8,
    pub rear_anti_roll_bar: u8,
    /// Front ride height.
    pub front_suspension_height: u8,
    /// Rear ride height.
    pub rear_suspension_height: u8,
    /// Brake pressure, in percent.
    pub brake_pressure: u8,
    /// Brake bias, in percent.
    pub brake_bias: u8,
    /// Front tyre pressure, in PSI.
    pub front_tyre_pressure: FloatBits,
    /// Rear tyre pressure, in PSI.
    pub rear_tyre_pressure: FloatBits,
    pub ballast: u8,
    pub fuel_load: FloatBits,
}

impl WireRecord for CarSetupData {
    open spec fn width() -> nat {
        CAR_SETUP_SIZE as nat
    }

    open spec fn at(buf: Seq<u8>, off: int) -> Self {
        CarSetupData {
            front_wing: buf[off],
            rear_wing: buf[off + 1],
            on_throttle: buf[off + 2],
            off_throttle: buf[off + 3],
            front_camber: le_float(buf, off + 4),
            rear_camber: le_float(buf, off + 8),
            front_toe: le_float(buf, off + 12),
            rear_toe: le_float(buf, off + 16),
            front_suspension: buf[off + 20],
            rear_suspension: buf[off + 21],
            front_anti_roll_bar: buf[off + 22],
            rear_anti_roll_bar: buf[off + 23],
            front_suspension_height: buf[off + 24],
            rear_suspension_height: buf[off + 25],
            brake_pressure: buf[off + 26],
            brake_bias: buf[off + 27],
            front_tyre_pressure: le_float(buf, off + 28),
            rear_tyre_pressure: le_float(buf, off + 32),
            ballast: buf[off + 36],
            fuel_load: le_float(buf, off + 37),
        }
    }

    fn blank() -> (r: Self) {
        let zero = FloatBits { bits: 0 };
        CarSetupData {
            front_wing: 0,
            rear_wing: 0,
            on_throttle: 0,
            off_throttle: 0,
            front_camber: zero,
            rear_camber: zero,
            front_toe: zero,
            rear_toe: zero,
            front_suspension: 0,
            rear_suspension: 0,
            front_anti_roll_bar: 0,
            rear_anti_roll_bar: 0,
            front_suspension_height: 0,
            rear_suspension_height: 0,
            brake_pressure: 0,
            brake_bias: 0,
            front_tyre_pressure: zero,
            rear_tyre_pressure: zero,
            ballast: 0,
            fuel_load: zero,
        }
    }

    fn decode_at(buf: &[u8], off: usize) -> (r: Result<Self, DecodeError>) {
        if off > buf.len() || buf.len() - off < CAR_SETUP_SIZE {
            return Err(DecodeError::OutOfBounds);
        }
        Ok(
            CarSetupData {
                front_wing: read_u8(buf, off)?,
                rear_wing: read_u8(buf, off + 1)?,
                on_throttle: read_u8(buf, off + 2)?,
                off_throttle: read_u8(buf, off + 3)?,
                front_camber: read_float(buf, off + 4)?,
                rear_camber: read_float(buf, off + 8)?,
                front_toe: read_float(buf, off + 12)?,
                rear_toe: read_float(buf, off + 16)?,
                front_suspension: read_u8(buf, off + 20)?,
                rear_suspension: read_u8(buf, off + 21)?,
                front_anti_roll_bar: read_u8(buf, off + 22)?,
                rear_anti_roll_bar: read_u8(buf, off + 23)?,
                front_suspension_height: read_u8(buf, off + 24)?,
                rear_suspension_height: read_u8(buf, off + 25)?,
                brake_pressure: read_u8(buf, off + 26)?,
                brake_bias: read_u8(buf, off + 27)?,
                front_tyre_pressure: read_float(buf, off + 28)?,
                rear_tyre_pressure: read_float(buf, off + 32)?,
                ballast: read_u8(buf, off + 36)?,
                fuel_load: read_float(buf, off + 37)?,
            },
        )
    }
}

/// The car setups packet.
#[derive(Debug, Clone, Copy, PartialEq, Eq)]
pub struct CarSetups {
    pub header: PacketHeader,
    /// The setup of each car.
    pub car_setups: CarSlotArray<CarSetupData>,
}

/// The car setups packet that `buf` holds behind `header`.
pub open spec fn car_setups_at(buf: Seq<u8>, header: PacketHeader) -> CarSetups {
    CarSetups {
        header,
        car_setups: car_slots_at::<CarSetupData>(buf, HEADER_SIZE as int, CAR_SETUP_SIZE as int),
    }
}

/// What `parse_setups` makes of a datagram of `length` bytes.
pub open spec fn decoded_setups(buf: Seq<u8>, header: PacketHeader, length: int) -> Result<
    CarSetups,
    DecodeError,
> {
    match length_checked(buf.len() as int, length, CARSETUPS_SIZE as int) {
        Ok(_) => Ok(car_setups_at(buf, header)),
        Err(e) => Err(e),
    }
}

/// Decodes the setup of each of the twenty cars of a datagram.
pub fn parse_car_setup(buf: &[u8]) -> (r: Result<CarSlotArray<CarSetupData>, DecodeError>)
    ensures
        r is Ok <==> buf@.len() >= CARSETUPS_SIZE,
        r matches Ok(a) ==> a == car_slots_at::<CarSetupData>(
            buf@,
            HEADER_SIZE as int,
            CAR_SETUP_SIZE as int,
        ),
        r matches Err(e) ==> e == DecodeError::OutOfBounds,
{
    decode_car_slots::<CarSetupData>(buf, HEADER_SIZE, CAR_SETUP_SIZE)
}

/// Decodes a car setups packet. The datagram must have exactly
/// `CARSETUPS_SIZE` bytes, or it is a `LengthMismatch`.
pub fn parse_setups(buf: &[u8], header: PacketHeader, length: usize) -> (r: Result<
    CarSetups,
    DecodeError,
>)
    ensures
        r == decoded_setups(buf@, header, length as int),
{
    check_length(buf, length, CARSETUPS_SIZE)?;
    Ok(CarSetups { header, car_setups: parse_car_setup(buf)? })
}

} // verus!
