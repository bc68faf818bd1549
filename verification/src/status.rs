//! Car status packet: 1143 bytes, a header and twenty records of 56 bytes.

use crate::error::DecodeError;
use crate::header::{check_length, length_checked, PacketHeader, HEADER_SIZE};
use crate::walker::{
    car_slots_at, decode_car_slots, parse_wheel_array_u8, quad_at, CarSlotArray, WheelQuad,
    WireRecord,
};
use crate::wire::{
    le_float, le_i8, le_u16, read_float, read_i8, read_u16, read_u8, FloatBits,
};
use vstd::prelude::*;

verus! {

/// Bytes in a car status datagram.
pub const STATUS_SIZE: usize = 1143;

/// Bytes in the status of one car.
pub const CAR_STATUS_SIZE: usize = 56;

/// The status of one car.
#[derive(Debug, Clone, Copy, PartialEq, Eq)]
pub struct CarStatus {
    /// 0 (off) to 2 (high).
    pub traction_control: u8,
    /// 0 (off) or 1 (on).
    pub anti_lock_brakes: u8,
    /// 0 = lean, 1 = standard, 2 = rich, 3 = max.
    pub fuel_mix: u8,
    /// Front brake bias, in percent.
    pub front_brake_bias: u8,
    /// 0 = off, 1 = on.
    pub pit_limiter_status: u8,
    /// Current fuel mass.
    pub fuel_in_tank: FloatBits,
    /// Fuel capacity.
    pub fuel_capacity: FloatBits,
    /// Fuel remaining, in laps.
    pub fuel_remaining_laps: FloatBits,
    /// Point of the rev limiter.
    pub max_rpm: u16,
    /// Idle RPM.
    pub idle_rpm: u16,
    /// Number of gears.
    pub max_gears: u8,
    /// 0 = not allowed, 1 = allowed.
    pub drs_allowed: u8,
    /// Tyre wear, in percent.
    pub tyres_wear: WheelQuad<u8>,
    /// Compound fitted.
    pub actual_tyre_compound: u8,
    /// Compound shown, which can differ from the one fitted.
    pub tyre_visual_compound: u8,
    /// Tyre damage, in percent.
    pub tyres_damage: WheelQuad<u8>,
    /// Front left wing damage, in percent.
    pub front_left_wing_damage: u8,
    /// Front right wing damage, in percent.
    pub front_right_wing_damage: u8,
    /// Rear wing damage, in percent.
    pub rear_wing_damage: u8,
    /// Engine damage, in percent.
    pub engine_damage: u8,
    /// Gear box damage, in percent.
    pub gear_box_damage: u8,
    /// -1 = unknown, 0 = none, 1 = green, 2 = blue, 3 = yellow, 4 = red.
    pub vehicle_fia_flags: i8,
    /// Energy in the ERS store, in joules.
    pub ers_store_energy: FloatBits,
    /// 0 = none, 1 = low, 2 = medium, 3 = high, 4 = overtake, 5 = hotlap.
    pub ers_deploy_mode: u8,
    /// Energy harvested this lap by the MGU-K.
    pub ers_harvested_this_lap_mguk: FloatBits,
    /// Energy harvested this lap by the MGU-H.
    pub ers_harvested_this_lap_mguh: FloatBits,
    /// Energy deployed this lap.
    pub ers_deployed_this_lap: FloatBits,
}

impl WireRecord for CarStatus {
    open spec fn width() -> nat {
        CAR_STATUS_SIZE as nat
    }

    open spec fn at(buf: Seq<u8>, off: int) -> Self {
        CarStatus {
            traction_control: buf[off],
            anti_lock_brakes: buf[off + 1],
            fuel_mix: buf[off + 2],
            front_brake_bias: buf[off + 3],
            pit_limiter_status: buf[off + 4],
            fuel_in_tank: le_float(buf, off + 5),
            fuel_capacity: le_float(buf, off + 9),
            fuel_remaining_laps: le_float(buf, off + 13),
            max_rpm: le_u16(buf, off + 17),
            idle_rpm: le_u16(buf, off + 19),
            max_gears: buf[off + 21],
            drs_allowed: buf[off + 22],
            tyres_wear: quad_at::<u8>(buf, off + 23, 1),
            actual_tyre_compound: buf[off + 27],
            tyre_visual_compound: buf[off + 28],
            tyres_damage: quad_at::<u8>(buf, off + 29, 1),
            front_left_wing_damage: buf[off + 33],
            front_right_wing_damage: buf[off + 34],
            rear_wing_damage: buf[off + 35],
            engine_damage: buf[off + 36],
            gear_box_damage: buf[off + 37],
            vehicle_fia_flags: le_i8(buf, off + 38),
            ers_store_energy: le_float(buf, off + 39),
            ers_deploy_mode: buf[off + 43],
            ers_harvested_this_lap_mguk: le_float(buf, off + 44),
            ers_harvested_this_lap_mguh: le_float(buf, off + 48),
            ers_deployed_this_lap: le_float(buf, off + 52),
        }
    }

    fn blank() -> (r: Self) {
        let zero = FloatBits { bits: 0 };
        let r = CarStatus {
            traction_control: 0,
            anti_lock_brakes: 0,
            fuel_mix: 0,
            front_brake_bias: 0,
            pit_limiter_status: 0,
            fuel_in_tank: zero,
            fuel_capacity: zero,
            fuel_remaining_laps: zero,
            max_rpm: 0,
            idle_rpm: 0,
            max_gears: 0,
            drs_allowed: 0,
            tyres_wear: [0u8;4],
            actual_tyre_compound: 0,
            tyre_visual_compound: 0,
            tyres_damage: [0u8;4],
            front_left_wing_damage: 0,
            front_right_wing_damage: 0,
            rear_wing_damage: 0,
            engine_damage: 0,
            gear_box_damage: 0,
            vehicle_fia_flags: 0,
            ers_store_energy: zero,
            ers_deploy_mode: 0,
            ers_harvested_this_lap_mguk: zero,
            ers_harvested_this_lap_mguh: zero,
            ers_deployed_this_lap: zero,
        };
        proof {
            let z = Self::at(crate::walker::zeros(Self::width()), 0);
            assert(r.tyres_wear =~= z.tyres_wear);
            assert(r.tyres_damage =~= z.tyres_damage);
        }
        r
    }

    fn decode_at(buf: &[u8], off: usize) -> (r: Result<Self, DecodeError>) {
        if off > buf.len() || buf.len() - off < CAR_STATUS_SIZE {
            return Err(DecodeError::OutOfBounds);
        }
        Ok(
            CarStatus {
                traction_control: read_u8(buf, off)?,
                anti_lock_brakes: read_u8(buf, off + 1)?,
                fuel_mix: read_u8(buf, off + 2)?,
                front_brake_bias: read_u8(buf, off + 3)?,
                pit_limiter_status: read_u8(buf, off + 4)?,
                fuel_in_tank: read_float(buf, off + 5)?,
                fuel_capacity: read_float(buf, off + 9)?,
                fuel_remaining_laps: read_float(buf, off + 13)?,
                max_rpm: read_u16(buf, off + 17)?,
                idle_rpm: read_u16(buf, off + 19)?,
                max_gears: read_u8(buf, off + 21)?,
                drs_allowed: read_u8(buf, off + 22)?,
                tyres_wear: parse_wheel_array_u8(buf, off + 23)?,
                actual_tyre_compound: read_u8(buf, off + 27)?,
                tyre_visual_compound: read_u8(buf, off + 28)?,
                tyres_damage: parse_wheel_array_u8(buf, off + 29)?,
                front_left_wing_damage: read_u8(buf, off + 33)?,
                front_right_wing_damage: read_u8(buf, off + 34)?,
                rear_wing_damage: read_u8(buf, off + 35)?,
                engine_damage: read_u8(buf, off + 36)?,
                gear_box_damage: read_u8(buf, off + 37)?,
                vehicle_fia_flags: read_i8(buf, off + 38)?,
                ers_store_energy: read_float(buf, off + 39)?,
                ers_deploy_mode: read_u8(buf, off + 43)?,
                ers_harvested_this_lap_mguk: read_float(buf, off + 44)?,
                ers_harvested_this_lap_mguh: read_float(buf, off + 48)?,
                ers_deployed_this_lap: read_float(buf, off + 52)?,
            },
        )
    }
}

/// The car status packet.
#[derive(Debug, Clone, Copy, PartialEq, Eq)]
pub struct CarStatusData {
    pub header: PacketHeader,
    /// The status of each car.
    pub car_status_data: CarSlotArray<CarStatus>,
}

/// The car status packet that `buf` holds behind `header`.
pub open spec fn car_status_data_at(buf: Seq<u8>, header: PacketHeader) -> CarStatusData {
    CarStatusData {
        header,
        car_status_data: car_slots_at::<CarStatus>(buf, HEADER_SIZE as int, CAR_STATUS_SIZE as int),
    }
}

/// What `parse_car_status_data` makes of a datagram of `length` bytes.
pub open spec fn decoded_car_status_data(buf: Seq<u8>, header: PacketHeader, length: int) -> Result<
    CarStatusData,
    DecodeError,
> {
    match length_checked(buf.len() as int, length, STATUS_SIZE as int) {
        Ok(_) => Ok(car_status_data_at(buf, header)),
        Err(e) => Err(e),
    }
}

/// Decodes the status of each of the twenty cars of a datagram.
pub fn parse_car_status(buf: &[u8]) -> (r: Result<CarSlotArray<CarStatus>, DecodeError>)
    ensures
        r is Ok <==> buf@.len() >= STATUS_SIZE,
        r matches Ok(a) ==> a == car_slots_at::<CarStatus>(
            buf@,
            HEADER_SIZE as int,
            CAR_STATUS_SIZE as int,
        ),
        r matches Err(e) ==> e == DecodeError::OutOfBounds,
{
    decode_car_slots::<CarStatus>(buf, HEADER_SIZE, CAR_STATUS_SIZE)
}

/// Decodes a car status packet. The datagram must have exactly
/// `STATUS_SIZE` bytes, or it is a `LengthMismatch`.
pub fn parse_car_status_data(buf: &[u8], header: PacketHeader, length: usize) -> (r: Result<
    CarStatusData,
    DecodeError,
>)
    ensures
        r == decoded_car_status_data(buf@, header, length as int),
{
    check_length(buf, length, STATUS_SIZE)?;
    Ok(CarStatusData { header, car_status_data: parse_car_status(buf)? })
}

} // verus!
