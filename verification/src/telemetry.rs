//! Telemetry packet: 1347 bytes, the largest datagram of the feed. A header,
//! twenty records of 66 bytes, and the state of the buttons.

use crate::error::DecodeError;
use crate::header::{check_length, length_checked, PacketHeader, HEADER_SIZE};
use crate::walker::{
    car_slots_at, decode_car_slots, parse_wheel_array_f32, parse_wheel_array_u16,
    parse_wheel_array_u8, quad_at, zeros, CarSlotArray, WheelQuad, WireRecord,
};
use crate::wire::{
    le_float, le_i8, le_u16, le_u32, read_float, read_i8, read_u16, read_u32, read_u8, FloatBits,
};
use vstd::prelude::*;

verus! {

/// Bytes in the largest datagram of the feed.
pub const MAX_PACKET_SIZE: usize = 1347;

/// Bytes in a telemetry datagram.
pub const TELEMETRY_SIZE: usize = 1347;

/// Bytes in the telemetry of one car.
pub const CAR_TELEMETRY_SIZE: usize = 66;

/// The telemetry of one car.
#[derive(Debug, Clone, Copy, PartialEq, Eq)]
pub struct CarTelemetry {
    /// Speed, in kilometres per hour.
    pub car_speed: u16,
    /// Throttle applied, 0.0 to 1.0.
    pub throttle_pos: FloatBits,
    /// Steering, -1.0 (full lock left) to 1.0 (full lock right).
    pub steering_pos: FloatBits,
    /// Brake applied, 0.0 to 1.0.
    pub brake_pos: FloatBits,
    /// Clutch applied, 0 to 100.
    pub clutch_pos: u8,
    /// Gear: 1 to 8, 0 for neutral, -1 for reverse.
    pub gear: i8,
    /// Engine RPM.
    pub engine_rpm: u16,
    /// 0 = off, 1 = on.
    pub drs_active: u8,
    /// Rev lights indicator, in percent.
    pub change_light_perc: u8,
    /// Brake temperatures, in degrees Celsius.
    pub brake_temps: WheelQuad<u16>,
    /// Tyre surface temperatures, in degrees Celsius.
    pub tyre_surface_temps: WheelQuad<u16>,
    /// Tyre inner temperatures, in degrees Celsius.
    pub tyre_inner_temps: WheelQuad<u16>,
    /// Engine temperature, in degrees Celsius.
    pub engine_temp: u16,
    /// Tyre pressures, in PSI.
    pub tyre_pressures: WheelQuad<FloatBits>,
    /// Surface under each wheel.
    pub tyre_contact_types: WheelQuad<u8>,
}

impl WireRecord for CarTelemetry {
    open spec fn width() -> nat {
        CAR_TELEMETRY_SIZE as nat
    }

    open spec fn at(buf: Seq<u8>, off: int) -> Self {
        CarTelemetry {
            car_speed: le_u16(buf, off),
            throttle_pos: le_float(buf, off + 2),
            steering_pos: le_float(buf, off + 6),
            brake_pos: le_float(buf, off + 10),
            clutch_pos: buf[off + 14],
            gear: le_i8(buf, off + 15),
            engine_rpm: le_u16(buf, off + 16),
            drs_active: buf[off + 18],
            change_light_perc: buf[off + 19],
            brake_temps: quad_at::<u16>(buf, off + 20, 2),
            tyre_surface_temps: quad_at::<u16>(buf, off + 28, 2),
            tyre_inner_temps: quad_at::<u16>(buf, off + 36, 2),
            engine_temp: le_u16(buf, off + 44),
            tyre_pressures: quad_at::<FloatBits>(buf, off + 46, 4),
            tyre_contact_types: quad_at::<u8>(buf, off + 62, 1),
        }
    }

    fn blank() -> (r: Self) {
        let zero = FloatBits { bits: 0 };
        let r = CarTelemetry {
            car_speed: 0,
            throttle_pos: zero,
            steering_pos: zero,
            brake_pos: zero,
            clutch_pos: 0,
            gear: 0,
            engine_rpm: 0,
            drs_active: 0,
            change_light_perc: 0,
            brake_temps: [0u16;4],
            tyre_surface_temps: [0u16;4],
            tyre_inner_temps: [0u16;4],
            engine_temp: 0,
            tyre_pressures: [zero;4],
            tyre_contact_types: [0u8;4],
        };
        proof {
            let z = Self::at(zeros(Self::width()), 0);
            assert(r.brake_temps =~= z.brake_temps);
            assert(r.tyre_surface_temps =~= z.tyre_surface_temps);
            assert(r.tyre_inner_temps =~= z.tyre_inner_temps);
            assert(r.tyre_pressures =~= z.tyre_pressures);
            assert(r.tyre_contact_types =~= z.tyre_contact_types);
        }
        r
    }

    fn decode_at(buf: &[u8], off: usize) -> (r: Result<Self, DecodeError>) {
        if off > buf.len() || buf.len() - off < CAR_TELEMETRY_SIZE {
            return Err(DecodeError::OutOfBounds);
        }
        Ok(
            CarTelemetry {
                car_speed: read_u16(buf, off)?,
                throttle_pos: read_float(buf, off + 2)?,
                steering_pos: read_float(buf, off + 6)?,
                brake_pos: read_float(buf, off + 10)?,
                clutch_pos: read_u8(buf, off + 14)?,
                gear: read_i8(buf, off + 15)?,
                engine_rpm: read_u16(buf, off + 16)?,
                drs_active: read_u8(buf, off + 18)?,
                change_light_perc: read_u8(buf, off + 19)?,
                brake_temps: parse_wheel_array_u16(buf, off + 20)?,
                tyre_surface_temps: parse_wheel_array_u16(buf, off + 28)?,
                tyre_inner_temps: parse_wheel_array_u16(buf, off + 36)?,
                engine_temp: read_u16(buf, off + 44)?,
                tyre_pressures: parse_wheel_array_f32(buf, off + 46)?,
                tyre_contact_types: parse_wheel_array_u8(buf, off + 62)?,
            },
        )
    }
}

/// The telemetry packet.
#[derive(Debug, Clone, Copy, PartialEq, Eq)]
pub struct Telemetry {
    pub header: PacketHeader,
    /// The telemetry of each car.
    pub car_telemetry_data: CarSlotArray<CarTelemetry>,
    /// One bit for each button that is pressed.
    pub button_status: u32,
}

/// The telemetry packet that `buf` holds behind `header`.
pub open spec fn telemetry_at(buf: Seq<u8>, header: PacketHeader) -> Telemetry {
    Telemetry {
        header,
        car_telemetry_data: car_slots_at::<CarTelemetry>(
            buf,
            HEADER_SIZE as int,
            CAR_TELEMETRY_SIZE as int,
        ),
        button_status: le_u32(buf, HEADER_SIZE + 20 * CAR_TELEMETRY_SIZE),
    }
}

/// What `parse_telemetry_data` makes of a datagram of `length` bytes.
pub open spec fn decoded_telemetry(buf: Seq<u8>, header: PacketHeader, length: int) -> Result<
    Telemetry,
    DecodeError,
> {
    match length_checked(buf.len() as int, length, TELEMETRY_SIZE as int) {
        Ok(_) => Ok(telemetry_at(buf, header)),
        Err(e) => Err(e),
    }
}

/// Decodes the telemetry of each of the twenty cars of a datagram.
pub fn parse_car_telemetry(buf: &[u8]) -> (r: Result<CarSlotArray<CarTelemetry>, DecodeError>)
    ensures
        r is Ok <==> buf@.len() >= HEADER_SIZE + 20 * CAR_TELEMETRY_SIZE,
        r matches Ok(a) ==> a == car_slots_at::<CarTelemetry>(
            buf@,
            HEADER_SIZE as int,
            CAR_TELEMETRY_SIZE as int,
        ),
        r matches Err(e) ==> e == DecodeError::OutOfBounds,
{
    decode_car_slots::<CarTelemetry>(buf, HEADER_SIZE, CAR_TELEMETRY_SIZE)
}

/// Decodes a telemetry packet. The datagram must have exactly
/// `TELEMETRY_SIZE` bytes, or it is a `LengthMismatch`.
pub fn parse_telemetry_data(buf: &[u8], header: PacketHeader, length: usize) -> (r: Result<
    Telemetry,
    DecodeError,
>)
    ensures
        r == decoded_telemetry(buf@, header, length as int),
{
    check_length(buf, length, TELEMETRY_SIZE)?;
    let after_cars: usize = HEADER_SIZE + 20 * CAR_TELEMETRY_SIZE;
    Ok(
        Telemetry {
            header,
            car_telemetry_data: parse_car_telemetry(buf)?,
            button_status: read_u32(buf, after_cars)?,
        },
    )
}

} // verus!
