//! Header decoder: the 23 bytes that every datagram starts with.
//!
//! | field            | offset | width |
//! |------------------|--------|-------|
//! | packet_format    | 0      | 2     |
//! | maj_version      | 2      | 1     |
//! | min_version      | 3      | 1     |
//! | packet_version   | 4      | 1     |
//! | packet_type      | 5      | 1     |
//! | session_id       | 6      | 8     |
//! | session_time     | 14     | 4     |
//! | frame_id         | 18     | 4     |
//! | player_car_index | 22     | 1     |

use crate::error::DecodeError;
use crate::wire::{
    le_float, le_u16, le_u32, le_u64, read_float, read_u16, read_u32, read_u64, read_u8, FloatBits,
};
use vstd::prelude::*;

verus! {

/// Bytes in a header.
pub const HEADER_SIZE: usize = 23;

/// Bytes in the smallest payload: the four-letter code of an event.
pub const MIN_PAYLOAD_SIZE: usize = 4;

/// Bytes in the shortest datagram that can hold a packet.
pub const MIN_PACKET_SIZE: usize = HEADER_SIZE + MIN_PAYLOAD_SIZE;

/// What a datagram carries. The feed knows eight packet types, numbered 0 to
/// 7 on the wire; every other number is `Unrecognized`, which is a state like
/// the others and no failure.
#[derive(Debug, Clone, Copy, PartialEq, Eq)]
pub enum PacketType {
    Motion,
    Session,
    Lap,
    Event,
    Participant,
    Setup,
    Telemetry,
    CarStatus,
    Unrecognized,
}

/// The packet type that a type byte stands for.
pub open spec fn packet_type_of(packet_type_byte: u8) -> PacketType {
    match packet_type_byte {
        0 => PacketType::Motion,
        1 => PacketType::Session,
        2 => PacketType::Lap,
        3 => PacketType::Event,
        4 => PacketType::Participant,
        5 => PacketType::Setup,
        6 => PacketType::Telemetry,
        7 => PacketType::CarStatus,
        _ => PacketType::Unrecognized,
    }
}

/// The name of a packet type, for display.
pub open spec fn packet_type_name(packet_type: PacketType) -> &'static str {
    match packet_type {
        PacketType::Motion => "motion packet",
        PacketType::Session => "session packet",
        PacketType::Lap => "lap packet",
        PacketType::Event => "event packet",
        PacketType::Participant => "participant packet",
        PacketType::Setup => "setup packet",
        PacketType::Telemetry => "telemetry packet",
        PacketType::CarStatus => "car status packet",
        PacketType::Unrecognized => "invalid packet",
    }
}

impl PacketType {
    /// The name of `event_type`. The receiver plays no part in the answer.
    #[allow(non_snake_case)]
    pub fn getName(&self, event_type: PacketType) -> (r: &str)
        ensures
            r == packet_type_name(event_type),
    {
        match event_type {
            PacketType::Motion => "motion packet",
            PacketType::Session => "session packet",
            PacketType::Lap => "lap packet",
            PacketType::Event => "event packet",
            PacketType::Participant => "participant packet",
            PacketType::Setup => "setup packet",
            PacketType::Telemetry => "telemetry packet",
            PacketType::CarStatus => "car status packet",
            PacketType::Unrecognized => "invalid packet",
        }
    }
}

/// Classifies the type byte of a header. Total: no byte makes it fail.
pub fn get_packet_type(packet_type_byte: u8) -> (r: PacketType)
    ensures
        r == packet_type_of(packet_type_byte),
{
    match packet_type_byte {
        0 => PacketType::Motion,
        1 => PacketType::Session,
        2 => PacketType::Lap,
        3 => PacketType::Event,
        4 => PacketType::Participant,
        5 => PacketType::Setup,
        6 => PacketType::Telemetry,
        7 => PacketType::CarStatus,
        _ => PacketType::Unrecognized,
    }
}

/// The header of a datagram.
#[derive(Debug, Clone, Copy, PartialEq, Eq)]
pub struct PacketHeader {
    /// Protocol year: 2019.
    pub packet_format: u16,
    /// Game major version, the "X" of "X.00".
    pub maj_version: u8,
    /// Game minor version, the "XX" of "1.XX".
    pub min_version: u8,
    /// Version of this packet type; each starts from 1.
    pub packet_version: u8,
    /// What the payload is.
    pub packet_type: PacketType,
    /// Identifies the game session.
    pub session_id: u64,
    /// Seconds since the session began.
    pub session_time: FloatBits,
    /// The simulation frame that the data was taken on.
    pub frame_id: u32,
    /// Index of the player's car in the per-car arrays.
    pub player_car_index: u8,
}

impl PacketHeader {
    /// What the payload behind this header is.
    pub fn get_type(&self) -> (r: PacketType)
        ensures
            r == self.packet_type,
    {
        self.packet_type
    }

    /// A header with the given fields.
    pub fn new(
        packet_format: u16,
        maj_version: u8,
        min_version: u8,
        packet_version: u8,
        packet_type: PacketType,
        session_id: u64,
        session_time: FloatBits,
        frame_id: u32,
        player_car_index: u8,
    ) -> (r: Self)
        ensures
            r == (PacketHeader {
                packet_format,
                maj_version,
                min_version,
                packet_version,
                packet_type,
                session_id,
                session_time,
                frame_id,
                player_car_index,
            }),
    {
        PacketHeader {
            packet_format,
            maj_version,
            min_version,
            packet_version,
            packet_type,
            session_id,
            session_time,
            frame_id,
            player_car_index,
        }
    }
}

/// The header that the first 23 bytes of `buf` hold.
pub open spec fn header_at(buf: Seq<u8>) -> PacketHeader {
    PacketHeader {
        packet_format: le_u16(buf, 0),
        maj_version: buf[2],
        min_version: buf[3],
        packet_version: buf[4],
        packet_type: packet_type_of(buf[5]),
        session_id: le_u64(buf, 6),
        session_time: le_float(buf, 14),
        frame_id: le_u32(buf, 18),
        player_car_index: buf[22],
    }
}

/// What `parse_header` makes of a datagram of `length` bytes held in `buf`.
pub open spec fn decoded_header(buf: Seq<u8>, length: int) -> Result<PacketHeader, DecodeError> {
    if length < MIN_PACKET_SIZE {
        Err(DecodeError::TooShort)
    } else if buf.len() < HEADER_SIZE {
        Err(DecodeError::OutOfBounds)
    } else {
        Ok(header_at(buf))
    }
}

/// Decodes the header of the datagram of `length` bytes that `buf` holds.
///
/// A datagram shorter than a header and the smallest payload is `TooShort`,
/// and nothing of it is read. A buffer that holds fewer bytes than a header,
/// whatever `length` says, is `OutOfBounds`. Every other input gives a
/// header; a type byte above 7 gives one of type `Unrecognized`.
pub fn parse_header(buf: &[u8], length: usize) -> (r: Result<PacketHeader, DecodeError>)
    ensures
        r == decoded_header(buf@, length as int),
{
    if length < MIN_PACKET_SIZE {
        return Err(DecodeError::TooShort);
    }
    if buf.len() < HEADER_SIZE {
        return Err(DecodeError::OutOfBounds);
    }
    let header = PacketHeader::new(
        read_u16(buf, 0)?,
        read_u8(buf, 2)?,
        read_u8(buf, 3)?,
        read_u8(buf, 4)?,
        get_packet_type(read_u8(buf, 5)?),
        read_u64(buf, 6)?,
        read_float(buf, 14)?,
        read_u32(buf, 18)?,
        read_u8(buf, 22)?,
    );
    Ok(header)
}

/// What is asked of every payload of fixed size before a field of it is
/// read: the datagram has exactly `size` bytes, and the buffer holds them all.
pub open spec fn length_checked(buf_len: int, length: int, size: int) -> Result<(), DecodeError> {
    if length != size {
        Err(DecodeError::LengthMismatch)
    } else if buf_len < size {
        Err(DecodeError::OutOfBounds)
    } else {
        Ok(())
    }
}

/// Holds the length of a datagram against the fixed size of its packet type.
/// This is a coarse safeguard and no checksum: damaged bytes in a datagram
/// of the right length are not noticed.
pub fn check_length(buf: &[u8], length: usize, size: usize) -> (r: Result<(), DecodeError>)
    ensures
        r == length_checked(buf@.len() as int, length as int, size as int),
{
    if length != size {
        Err(DecodeError::LengthMismatch)
    } else if buf.len() < size {
        Err(DecodeError::OutOfBounds)
    } else {
        Ok(())
    }
}

} // verus!
