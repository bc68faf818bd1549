//! Motion packet: 1343 bytes. A header, twenty records of 60 bytes, and the
//! suspension, wheel and rotation data of the player's car.

use crate::error::DecodeError;
use crate::header::{check_length, length_checked, PacketHeader, HEADER_SIZE};
use crate::walker::{
    car_slots_at, decode_car_slots, parse_wheel_array_f32, quad_at, CarSlotArray, WheelQuad,
    WireRecord,
};
use crate::wire::{le_float, le_i16, read_float, read_i16, FloatBits};
use vstd::prelude::*;

verus! {

/// Bytes in a motion datagram.
pub const MOTION_SIZE: usize = 1343;

/// Bytes in the motion of one car.
pub const CAR_MOTION_SIZE: usize = 60;

/// The motion of one car. The six directions are normalised vectors packed
/// into 16 bits: dividing one by 32767 gives a number between -1 and 1.
#[derive(Debug, Clone, Copy, PartialEq, Eq)]
pub struct CarMotion {
    /// Position in world space.
    pub world_pos_x: FloatBits,
    pub world_pos_y: FloatBits,
    pub world_pos_z: FloatBits,
    /// Velocity in world space.
    pub world_vel_x: FloatBits,
    pub world_vel_y: FloatBits,
    pub world_vel_z: FloatBits,
    /// Forward direction in world space.
    pub world_fwd_dir_x: i16,
    pub world_fwd_dir_y: i16,
    pub world_fwd_dir_z: i16,
    /// Right direction in world space.
    pub world_right_dir_x: i16,
    pub world_right_dir_y: i16,
    pub world_right_dir_z: i16,
    pub lateral_g: FloatBits,
    pub longitudinal_g: FloatBits,
    pub vertical_g: FloatBits,
    /// In radians.
    pub yaw: FloatBits,
    /// In radians.
    pub pitch: FloatBits,
    /// In radians.
    pub roll: FloatBits,
}

impl WireRecord for CarMotion {
    open spec fn width() -> nat {
        CAR_MOTION_SIZE as nat
    }

    open spec fn at(buf: Seq<u8>, off: int) -> Self {
        CarMotion {
            world_pos_x: le_float(buf, off),
            world_pos_y: le_float(buf, off + 4),
            world_pos_z: le_float(buf, off + 8),
            world_vel_x: le_float(buf, off + 12),
            world_vel_y: le_float(buf, off + 16),
            world_vel_z: le_float(buf, off + 20),
            world_fwd_dir_x: le_i16(buf, off + 24),
            world_fwd_dir_y: le_i16(buf, off + 26),
            world_fwd_dir_z: le_i16(buf, off + 28),
            world_right_dir_x: le_i16(buf, off + 30),
            world_right_dir_y: le_i16(buf, off + 32),
            world_right_dir_z: le_i16(buf, off + 34),
            lateral_g: le_float(buf, off + 36),
            longitudinal_g: le_float(buf, off + 40),
            vertical_g: le_float(buf, off + 44),
            yaw: le_float(buf, off + 48),
            pitch: le_float(buf, off + 52),
            roll: le_float(buf, off + 56),
        }
    }

    fn blank() -> (r: Self) {
        let zero = FloatBits { bits: 0 };
        CarMotion {
            world_pos_x: zero,
            world_pos_y: zero,
            world_pos_z: zero,
            world_vel_x: zero,
            world_vel_y: zero,
            world_vel_z: zero,
            world_fwd_dir_x: 0,
            world_fwd_dir_y: 0,
            world_fwd_dir_z: 0,
            world_right_dir_x: 0,
            world_right_dir_y: 0,
            world_right_dir_z: 0,
            lateral_g: zero,
            longitudinal_g: zero,
            vertical_g: zero,
            yaw: zero,
            pitch: zero,
            roll: zero,
        }
    }

    fn decode_at(buf: &[u8], off: usize) -> (r: Result<Self, DecodeError>) {
        if off > buf.len() || buf.len() - off < CAR_MOTION_SIZE {
            return Err(DecodeError::OutOfBounds);
        }
        Ok(
            CarMotion {
                world_pos_x: read_float(buf, off)?,
                world_pos_y: read_float(buf, off + 4)?,
                world_pos_z: read_float(buf, off + 8)?,
                world_vel_x: read_float(buf, off + 12)?,
                world_vel_y: read_float(buf, off + 16)?,
                world_vel_z: read_float(buf, off + 20)?,
                world_fwd_dir_x: read_i16(buf, off + 24)?,
                world_fwd_dir_y: read_i16(buf, off + 26)?,
                world_fwd_dir_z: read_i16(buf, off + 28)?,
                world_right_dir_x: read_i16(buf, off + 30)?,
                world_right_dir_y: read_i16(buf, off + 32)?,
                world_right_dir_z: read_i16(buf, off + 34)?,
                lateral_g: read_float(buf, off + 36)?,
                longitudinal_g: read_float(buf, off + 40)?,
                vertical_g: read_float(buf, off + 44)?,
                yaw: read_float(buf, off + 48)?,
                pitch: read_float(buf, off + 52)?,
                roll: read_float(buf, off + 56)?,
            },
        )
    }
}

/// The motion packet. What follows the per-car array is known of the
/// player's car only.
#[derive(Debug, Clone, Copy, PartialEq, Eq)]
pub struct MotionData {
    pub header: PacketHeader,
    /// The motion of each car.
    pub car_motion_data: CarSlotArray<CarMotion>,
    pub suspension_pos: WheelQuad<FloatBits>,
    pub suspension_vel: WheelQuad<FloatBits>,
    pub suspension_acc: WheelQuad<FloatBits>,
    pub wheel_speed: WheelQuad<FloatBits>,
    pub wheel_slip: WheelQuad<FloatBits>,
    /// Velocity in local space.
    pub local_vel_x: FloatBits,
    pub local_vel_y: FloatBits,
    pub local_vel_z: FloatBits,
    pub angular_vel_x: FloatBits,
    pub angular_vel_y: FloatBits,
    pub angular_vel_z: FloatBits,
    pub angular_acc_x: FloatBits,
    pub angular_acc_y: FloatBits,
    pub angular_acc_z: FloatBits,
    /// In radians.
    pub front_wheels_angle: FloatBits,
}

/// Where the data of the player's car starts: behind the header and the
/// per-car array.
pub open spec fn player_offset() -> int {
    HEADER_SIZE + 20 * CAR_MOTION_SIZE
}

/// The motion packet that `buf` holds behind `header`.
pub open spec fn motion_data_at(buf: Seq<u8>, header: PacketHeader) -> MotionData {
    let p = player_offset();
    MotionData {
        header,
        car_motion_data: car_slots_at::<CarMotion>(buf, HEADER_SIZE as int, CAR_MOTION_SIZE as int),
        suspension_pos: quad_at::<FloatBits>(buf, p, 4),
        suspension_vel: quad_at::<FloatBits>(buf, p + 16, 4),
        suspension_acc: quad_at::<FloatBits>(buf, p + 32, 4),
        wheel_speed: quad_at::<FloatBits>(buf, p + 48, 4),
        wheel_slip: quad_at::<FloatBits>(buf, p + 64, 4),
        local_vel_x: le_float(buf, p + 80),
        local_vel_y: le_float(buf, p + 84),
        local_vel_z: le_float(buf, p + 88),
        angular_vel_x: le_float(buf, p + 92),
        angular_vel_y: le_float(buf, p + 96),
        angular_vel_z: le_float(buf, p + 100),
        angular_acc_x: le_float(buf, p + 104),
        angular_acc_y: le_float(buf, p + 108),
        angular_acc_z: le_float(buf, p + 112),
        front_wheels_angle: le_float(buf, p + 116),
    }
}

/// What `parse_motion_data` makes of a datagram of `length` bytes.
pub open spec fn decoded_motion(buf: Seq<u8>, header: PacketHeader, length: int) -> Result<
    MotionData,
    DecodeError,
> {
    match length_checked(buf.len() as int, length, MOTION_SIZE as int) {
        Ok(_) => Ok(motion_data_at(buf, header)),
        Err(e) => Err(e),
    }
}

/// Decodes the motion of each of the twenty cars of a datagram.
pub fn parse_car_motion(buf: &[u8]) -> (r: Result<CarSlotArray<CarMotion>, DecodeError>)
    ensures
        r is Ok <==> buf@.len() >= HEADER_SIZE + 20 * CAR_MOTION_SIZE,
        r matches Ok(a) ==> a == car_slots_at::<CarMotion>(
            buf@,
            HEADER_SIZE as int,
            CAR_MOTION_SIZE as int,
        ),
        r matches Err(e) ==> e == DecodeError::OutOfBounds,
{
    decode_car_slots::<CarMotion>(buf, HEADER_SIZE, CAR_MOTION_SIZE)
}

/// Decodes a motion packet. The datagram must have exactly `MOTION_SIZE`
/// bytes, or it is a `LengthMismatch`.
pub fn parse_motion_data(buf: &[u8], header: PacketHeader, length: usize) -> (r: Result<
    MotionData,
    DecodeError,
>)
    ensures
        r == decoded_motion(buf@, header, length as int),
{
    check_length(buf, length, MOTION_SIZE)?;
    let p: usize = HEADER_SIZE + 20 * CAR_MOTION_SIZE;
    Ok(
        MotionData {
            header,
            car_motion_data: parse_car_motion(buf)?,
            suspension_pos: parse_wheel_array_f32(buf, p)?,
            suspension_vel: parse_wheel_array_f32(buf, p + 16)?,
            suspension_acc: parse_wheel_array_f32(buf, p + 32)?,
            wheel_speed: parse_wheel_array_f32(buf, p + 48)?,
            wheel_slip: parse_wheel_array_f32(buf, p + 64)?,
            local_vel_x: read_float(buf, p + 80)?,
            local_vel_y: read_float(buf, p + 84)?,
            local_vel_z: read_float(buf, p + 88)?,
            angular_vel_x: read_float(buf, p + 92)?,
            angular_vel_y: read_float(buf, p + 96)?,
            angular_vel_z: read_float(buf, p + 100)?,
            angular_acc_x: read_float(buf, p + 104)?,
            angular_acc_y: read_float(buf, p + 108)?,
            angular_acc_z: read_float(buf, p + 112)?,
            front_wheels_angle: read_float(buf, p + 116)?,
        },
    )
}

} // verus!
