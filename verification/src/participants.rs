//! Participants packet: 1104 bytes. A header, the number of active cars, and
//! twenty records of 54 bytes.

use crate::error::DecodeError;
use crate::header::{check_length, length_checked, PacketHeader, HEADER_SIZE};
use crate::walker::{
    car_slots_at, decode_array, decode_car_slots, lemma_slots_in_bounds, zeros, CarSlotArray,
    WireRecord,
};
use crate::wire::{in_bounds, read_u8};
use vstd::prelude::*;

verus! {

/// Bytes in a participants datagram.
pub const PARTICIPANTS_SIZE: usize = 1104;

/// Bytes in the record of one participant.
pub const PARTICIPANT_SIZE: usize = 54;

/// Bytes in the name of a participant.
pub const NAME_SIZE: usize = 48;

/// Who drives a car. In a multiplayer game the name is the player's name on
/// the platform; for a car that the game drives it is the driver's name.
#[derive(Debug, Clone, Copy, PartialEq, Eq)]
pub struct ParticipantData {
    /// 1 if the game drives the car, 0 if a human does.
    pub ai_controlled: u8,
    pub driver_id: u8,
    pub team_id: u8,
    /// Race number of the car.
    pub race_number: u8,
    /// Nationality of the driver.
    pub nationality: u8,
    /// The name in UTF-8, ended by a zero byte. The sender cuts a name that
    /// is too long and marks the cut with an ellipsis (U+2026).
    pub name: [u8; NAME_SIZE],
    /// The player's UDP setting: 0 = restricted, 1 = public.
    pub priv_telemetry: u8,
}

/// The 48 bytes that start at `base`.
pub open spec fn name_at(buf: Seq<u8>, base: int) -> [u8; NAME_SIZE] {
    [
        buf[base],
        buf[base + 1],
        buf[base + 2],
        buf[base + 3],
        buf[base + 4],
        buf[base + 5],
        buf[base + 6],
        buf[base + 7],
        buf[base + 8],
        buf[base + 9],
        buf[base + 10],
        buf[base + 11],
        buf[base + 12],
        buf[base + 13],
        buf[base + 14],
        buf[base + 15],
        buf[base + 16],
        buf[base + 17],
        buf[base + 18],
        buf[base + 19],
        buf[base + 20],
        buf[base + 21],
        buf[base + 22],
        buf[base + 23],
        buf[base + 24],
        buf[base + 25],
        buf[base + 26],
        buf[base + 27],
        buf[base + 28],
        buf[base + 29],
        buf[base + 30],
        buf[base + 31],
        buf[base + 32],
        buf[base + 33],
        buf[base + 34],
        buf[base + 35],
        buf[base + 36],
        buf[base + 37],
        buf[base + 38],
        buf[base + 39],
        buf[base + 40],
        buf[base + 41],
        buf[base + 42],
        buf[base + 43],
        buf[base + 44],
        buf[base + 45],
        buf[base + 46],
        buf[base + 47],
    ]
}

impl ParticipantData {
    /// A record with every field zero and an empty name.
    pub fn new() -> (r: Self)
        ensures
            r.ai_controlled == 0,
            r.driver_id == 0,
            r.team_id == 0,
            r.race_number == 0,
            r.nationality == 0,
            r.name@ == zeros(48),
            r.priv_telemetry == 0,
    {
        let r = ParticipantData {
            ai_controlled: 0,
            driver_id: 0,
            team_id: 0,
            race_number: 0,
            nationality: 0,
            name: [0u8;NAME_SIZE],
            priv_telemetry: 0,
        };
        proof {
            assert(r.name == vstd::array::spec_array_fill_for_copy_type::<u8, 48>(0u8));
            assert(r.name@ =~= zeros(48));
        }
        r
    }
}

impl WireRecord for ParticipantData {
    open spec fn width() -> nat {
        PARTICIPANT_SIZE as nat
    }

    open spec fn at(buf: Seq<u8>, off: int) -> Self {
        ParticipantData {
            ai_controlled: buf[off],
            driver_id: buf[off + 1],
            team_id: buf[off + 2],
            race_number: buf[off + 3],
            nationality: buf[off + 4],
            name: name_at(buf, off + 5),
            priv_telemetry: buf[off + 53],
        }
    }

    fn blank() -> (r: Self) {
        let r = ParticipantData::new();
        proof {
            let z = Self::at(zeros(Self::width()), 0);
            assert(r.name =~= z.name);
        }
        r
    }

    fn decode_at(buf: &[u8], off: usize) -> (r: Result<Self, DecodeError>) {
        if off > buf.len() || buf.len() - off < PARTICIPANT_SIZE {
            return Err(DecodeError::OutOfBounds);
        }
        Ok(
            ParticipantData {
                ai_controlled: read_u8(buf, off)?,
                driver_id: read_u8(buf, off + 1)?,
                team_id: read_u8(buf, off + 2)?,
                race_number: read_u8(buf, off + 3)?,
                nationality: read_u8(buf, off + 4)?,
                name: get_name_bytes(buf, off + 5)?,
                priv_telemetry: read_u8(buf, off + 53)?,
            },
        )
    }
}

/// Copies the 48 bytes of a name that starts at `offset`.
pub fn get_name_bytes(buf: &[u8], offset: usize) -> (r: Result<[u8; NAME_SIZE], DecodeError>)
    ensures
        r is Ok <==> in_bounds(buf@, offset as int, 48),
        r matches Ok(a) ==> a == name_at(buf@, offset as int),
        r matches Ok(a) ==> a@ == buf@.subrange(offset as int, offset + 48),
        r matches Err(e) ==> e == DecodeError::OutOfBounds,
{
    proof {
        lemma_slots_in_bounds::<u8>(buf@, offset as int, 1, 48);
    }
    let r = decode_array::<u8, NAME_SIZE>(buf, offset, 1);
    proof {
        if let Ok(a) = r {
            assert(a =~= name_at(buf@, offset as int));
            assert(a@ =~= buf@.subrange(offset as int, offset + 48));
        }
    }
    r
}

/// The participants packet.
#[derive(Debug, Clone, Copy, PartialEq, Eq)]
pub struct Participants {
    pub header: PacketHeader,
    /// Number of active cars; it should match the number of cars on the HUD.
    pub num_cars_active: u8,
    /// The participant in each car.
    pub participant_data: CarSlotArray<ParticipantData>,
}

/// The participants packet that `buf` holds behind `header`.
pub open spec fn participants_at(buf: Seq<u8>, header: PacketHeader) -> Participants {
    Participants {
        header,
        num_cars_active: buf[HEADER_SIZE as int],
        participant_data: car_slots_at::<ParticipantData>(
            buf,
            HEADER_SIZE + 1,
            PARTICIPANT_SIZE as int,
        ),
    }
}

/// What `parse_participant_data` makes of a datagram of `length` bytes.
pub open spec fn decoded_participants(buf: Seq<u8>, header: PacketHeader, length: int) -> Result<
    Participants,
    DecodeError,
> {
    match length_checked(buf.len() as int, length, PARTICIPANTS_SIZE as int) {
        Ok(_) => Ok(participants_at(buf, header)),
        Err(e) => Err(e),
    }
}

/// Decodes the participant of each of the twenty cars of a datagram.
pub fn parse_participant(buf: &[u8]) -> (r: Result<CarSlotArray<ParticipantData>, DecodeError>)
    ensures
        r is Ok <==> buf@.len() >= PARTICIPANTS_SIZE,
        r matches Ok(a) ==> a == car_slots_at::<ParticipantData>(
            buf@,
            HEADER_SIZE + 1,
            PARTICIPANT_SIZE as int,
        ),
        r matches Err(e) ==> e == DecodeError::OutOfBounds,
{
    decode_car_slots::<ParticipantData>(buf, HEADER_SIZE + 1, PARTICIPANT_SIZE)
}

/// Decodes a participants packet. The datagram must have exactly
/// `PARTICIPANTS_SIZE` bytes, or it is a `LengthMismatch`.
pub fn parse_participant_data(buf: &[u8], header: PacketHeader, length: usize) -> (r: Result<
    Participants,
    DecodeError,
>)
    ensures
        r == decoded_participants(buf@, header, length as int),
{
    check_length(buf, length, PARTICIPANTS_SIZE)?;
    Ok(
        Participants {
            header,
            num_cars_active: read_u8(buf, HEADER_SIZE)?,
            participant_data: parse_participant(buf)?,
        },
    )
}

} // verus!
