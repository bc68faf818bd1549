use f1_telemetry::dispatch::{dispatch, DecodedPacket};
use f1_telemetry::error::DecodeError;
use f1_telemetry::header::{parse_header, PacketHeader, PacketType, HEADER_SIZE};
use f1_telemetry::lap::{parse_car_laps, parse_lap_data, LAP_SIZE};
use f1_telemetry::motion::{parse_car_motion, parse_motion_data, MOTION_SIZE};
use f1_telemetry::participants::{
    get_name_bytes, parse_participant, parse_participant_data, ParticipantData, PARTICIPANTS_SIZE,
};
use f1_telemetry::session::{
    get_zone_flag, parse_marshal_zones, parse_session_data, ZoneFlag, SESSION_SIZE,
};
use f1_telemetry::setups::{parse_car_setup, parse_setups, CARSETUPS_SIZE};
use f1_telemetry::status::{parse_car_status, parse_car_status_data, STATUS_SIZE};
use f1_telemetry::telemetry::{
    parse_car_telemetry, parse_telemetry_data, MAX_PACKET_SIZE, TELEMETRY_SIZE,
};
use f1_telemetry::walker::{FRONT_LEFT, FRONT_RIGHT, REAR_LEFT, REAR_RIGHT};
use f1_telemetry::wire::FloatBits;

fn pattern(len: usize) -> Vec<u8> {
    let mut buf = Vec::with_capacity(len);
    for i in 0..len {
        buf.push(((i * 31 + 7) % 251) as u8);
    }
    buf
}

fn put(buf: &mut [u8], at: usize, bytes: &[u8]) {
    buf[at..at + bytes.len()].copy_from_slice(bytes);
}

fn put_header(buf: &mut [u8], packet_type: u8) {
    put(buf, 0, &2019u16.to_le_bytes());
    buf[2] = 1;
    buf[3] = 22;
    buf[4] = 1;
    buf[5] = packet_type;
    put(buf, 6, &0x1122_3344_5566_7788u64.to_le_bytes());
    put(buf, 14, &12.5f32.to_le_bytes());
    put(buf, 18, &0xA1B2_C3D4u32.to_le_bytes());
    buf[22] = 19;
}

fn header(packet_type: PacketType) -> PacketHeader {
    PacketHeader::new(
        2019,
        1,
        22,
        1,
        packet_type,
        0x1122_3344_5566_7788,
        FloatBits { bits: 12.5f32.to_bits() },
        0xA1B2_C3D4,
        19,
    )
}

fn datagram(packet_type: u8, len: usize) -> Vec<u8> {
    let mut buf = pattern(len);
    put_header(&mut buf, packet_type);
    buf
}

fn u16_at(buf: &[u8], at: usize) -> u16 {
    u16::from_le_bytes([buf[at], buf[at + 1]])
}

fn i16_at(buf: &[u8], at: usize) -> i16 {
    i16::from_le_bytes([buf[at], buf[at + 1]])
}

fn u32_at(buf: &[u8], at: usize) -> u32 {
    u32::from_le_bytes([buf[at], buf[at + 1], buf[at + 2], buf[at + 3]])
}

fn float_at(buf: &[u8], at: usize) -> FloatBits {
    FloatBits { bits: f32::from_le_bytes([buf[at], buf[at + 1], buf[at + 2], buf[at + 3]]).to_bits() }
}

fn number(f: FloatBits) -> f32 {
    f32::from_bits(f.bits)
}

#[test]
fn header_fields_at_their_offsets() {
    let buf = datagram(6, 64);
    let h = parse_header(&buf, 64).unwrap();
    assert_eq!(h.packet_format, 2019);
    assert_eq!(h.maj_version, 1);
    assert_eq!(h.min_version, 22);
    assert_eq!(h.packet_version, 1);
    assert_eq!(h.packet_type, PacketType::Telemetry);
    assert_eq!(h.get_type(), PacketType::Telemetry);
    assert_eq!(h.session_id, 0x1122_3344_5566_7788);
    assert_eq!(number(h.session_time), 12.5);
    assert_eq!(h.frame_id, 0xA1B2_C3D4);
    assert_eq!(h.player_car_index, 19);
    assert_eq!(h, header(PacketType::Telemetry));
}

#[test]
fn header_of_each_known_type() {
    let types = [
        PacketType::Motion,
        PacketType::Session,
        PacketType::Lap,
        PacketType::Event,
        PacketType::Participant,
        PacketType::Setup,
        PacketType::Telemetry,
        PacketType::CarStatus,
    ];
    for (byte, packet_type) in types.iter().enumerate() {
        let buf = datagram(byte as u8, 27);
        assert_eq!(parse_header(&buf, 27).unwrap().packet_type, *packet_type);
    }
}

#[test]
fn header_floor() {
    let buf = datagram(0, 64);
    assert_eq!(parse_header(&buf, 26), Err(DecodeError::TooShort));
    assert_eq!(parse_header(&buf, 0), Err(DecodeError::TooShort));
    assert!(parse_header(&buf, 27).is_ok());
    assert_eq!(parse_header(&buf[..0], 10), Err(DecodeError::TooShort));
}

#[test]
fn header_buffer_shorter_than_a_header() {
    let buf = datagram(0, 64);
    assert_eq!(parse_header(&buf[..22], 64), Err(DecodeError::OutOfBounds));
    assert_eq!(parse_header(&buf[..23], 64), Ok(header(PacketType::Motion)));
}

#[test]
fn short_datagram_is_ignored() {
    let buf = datagram(3, MAX_PACKET_SIZE);
    for length in 0..27 {
        assert_eq!(dispatch(&buf, length), DecodedPacket::Ignored(DecodeError::TooShort));
    }
    assert_eq!(dispatch(&[], 0), DecodedPacket::Ignored(DecodeError::TooShort));
}

#[test]
fn unknown_type_byte_is_ignored() {
    for byte in [8u8, 9, 10, 100, 255] {
        let buf = datagram(byte, MAX_PACKET_SIZE);
        for length in [27usize, 149, 843, 1104, 1143, 1343, 1347] {
            let h = parse_header(&buf, length).unwrap();
            assert_eq!(h.packet_type, PacketType::Unrecognized);
            assert_eq!(h, header(PacketType::Unrecognized));
            assert_eq!(
                dispatch(&buf, length),
                DecodedPacket::Ignored(DecodeError::UnrecognizedType)
            );
        }
    }
}

#[test]
fn one_byte_short_is_ignored() {
    let sizes = [
        (0u8, MOTION_SIZE),
        (1, SESSION_SIZE),
        (2, LAP_SIZE),
        (4, PARTICIPANTS_SIZE),
        (5, CARSETUPS_SIZE),
        (6, TELEMETRY_SIZE),
        (7, STATUS_SIZE),
    ];
    for (byte, size) in sizes {
        let buf = datagram(byte, size - 1);
        assert_eq!(
            dispatch(&buf, size - 1),
            DecodedPacket::Ignored(DecodeError::LengthMismatch)
        );
        let buf = datagram(byte, MAX_PACKET_SIZE + 1);
        assert_eq!(
            dispatch(&buf, size + 1),
            DecodedPacket::Ignored(DecodeError::LengthMismatch)
        );
        assert!(!matches!(dispatch(&buf[..size], size), DecodedPacket::Ignored(_)));
    }
}

#[test]
fn length_beyond_the_buffer_is_ignored() {
    let buf = datagram(2, LAP_SIZE - 1);
    assert_eq!(dispatch(&buf, LAP_SIZE), DecodedPacket::Ignored(DecodeError::OutOfBounds));
    let h = header(PacketType::Lap);
    assert_eq!(parse_lap_data(&buf, h, LAP_SIZE), Err(DecodeError::OutOfBounds));
    assert_eq!(parse_lap_data(&buf, h, LAP_SIZE - 1), Err(DecodeError::LengthMismatch));
}

#[test]
fn motion_round_trip() {
    let mut buf = datagram(0, MOTION_SIZE);
    put(&mut buf, 23 + 7 * 60, &1234.5f32.to_le_bytes());
    put(&mut buf, 23 + 7 * 60 + 24, &(-32767i16).to_le_bytes());
    put(&mut buf, 23 + 19 * 60 + 56, &(-0.25f32).to_le_bytes());
    put(&mut buf, 1223 + 12, &3.5f32.to_le_bytes());
    put(&mut buf, 1339, &0.125f32.to_le_bytes());
    let m = match dispatch(&buf, MOTION_SIZE) {
        DecodedPacket::Motion(m) => m,
        other => panic!("not a motion packet: {:?}", other),
    };
    assert_eq!(m.header, header(PacketType::Motion));
    for i in 0..20 {
        let at = 23 + i * 60;
        let car = m.car_motion_data[i];
        assert_eq!(car.world_pos_x, float_at(&buf, at));
        assert_eq!(car.world_pos_y, float_at(&buf, at + 4));
        assert_eq!(car.world_pos_z, float_at(&buf, at + 8));
        assert_eq!(car.world_vel_x, float_at(&buf, at + 12));
        assert_eq!(car.world_vel_y, float_at(&buf, at + 16));
        assert_eq!(car.world_vel_z, float_at(&buf, at + 20));
        assert_eq!(car.world_fwd_dir_x, i16_at(&buf, at + 24));
        assert_eq!(car.world_fwd_dir_y, i16_at(&buf, at + 26));
        assert_eq!(car.world_fwd_dir_z, i16_at(&buf, at + 28));
        assert_eq!(car.world_right_dir_x, i16_at(&buf, at + 30));
        assert_eq!(car.world_right_dir_y, i16_at(&buf, at + 32));
        assert_eq!(car.world_right_dir_z, i16_at(&buf, at + 34));
        assert_eq!(car.lateral_g, float_at(&buf, at + 36));
        assert_eq!(car.longitudinal_g, float_at(&buf, at + 40));
        assert_eq!(car.vertical_g, float_at(&buf, at + 44));
        assert_eq!(car.yaw, float_at(&buf, at + 48));
        assert_eq!(car.pitch, float_at(&buf, at + 52));
        assert_eq!(car.roll, float_at(&buf, at + 56));
    }
    assert_eq!(number(m.car_motion_data[7].world_pos_x), 1234.5);
    assert_eq!(m.car_motion_data[7].world_fwd_dir_x, -32767);
    assert_eq!(number(m.car_motion_data[19].roll), -0.25);
    for w in 0..4 {
        assert_eq!(m.suspension_pos[w], float_at(&buf, 1223 + 4 * w));
        assert_eq!(m.suspension_vel[w], float_at(&buf, 1239 + 4 * w));
        assert_eq!(m.suspension_acc[w], float_at(&buf, 1255 + 4 * w));
        assert_eq!(m.wheel_speed[w], float_at(&buf, 1271 + 4 * w));
        assert_eq!(m.wheel_slip[w], float_at(&buf, 1287 + 4 * w));
    }
    assert_eq!(number(m.suspension_pos[FRONT_RIGHT]), 3.5);
    assert_eq!(m.local_vel_x, float_at(&buf, 1303));
    assert_eq!(m.local_vel_y, float_at(&buf, 1307));
    assert_eq!(m.local_vel_z, float_at(&buf, 1311));
    assert_eq!(m.angular_vel_x, float_at(&buf, 1315));
    assert_eq!(m.angular_vel_y, float_at(&buf, 1319));
    assert_eq!(m.angular_vel_z, float_at(&buf, 1323));
    assert_eq!(m.angular_acc_x, float_at(&buf, 1327));
    assert_eq!(m.angular_acc_y, float_at(&buf, 1331));
    assert_eq!(m.angular_acc_z, float_at(&buf, 1335));
    assert_eq!(m.front_wheels_angle, float_at(&buf, 1339));
    assert_eq!(number(m.front_wheels_angle), 0.125);
    assert_eq!(parse_motion_data(&buf, header(PacketType::Motion), MOTION_SIZE), Ok(m));
    assert_eq!(parse_car_motion(&buf), Ok(m.car_motion_data));
}

#[test]
fn session_round_trip() {
    let mut buf = datagram(1, SESSION_SIZE);
    buf[23] = 3;
    buf[24] = (-5i8) as u8;
    buf[25] = 21;
    put(&mut buf, 27, &5793u16.to_le_bytes());
    buf[30] = (-1i8) as u8;
    buf[41] = 3;
    put(&mut buf, 42, &0.25f32.to_le_bytes());
    buf[46] = 3;
    put(&mut buf, 47, &0.5f32.to_le_bytes());
    buf[51] = 0;
    put(&mut buf, 52, &0.75f32.to_le_bytes());
    buf[56] = (-1i8) as u8;
    buf[61] = 1;
    buf[66] = 2;
    buf[71] = 4;
    buf[76] = 5;
    buf[42 + 20 * 5 + 4] = 4;
    buf[147] = 2;
    buf[148] = 1;
    let s = match dispatch(&buf, SESSION_SIZE) {
        DecodedPacket::Session(s) => s,
        other => panic!("not a session packet: {:?}", other),
    };
    assert_eq!(s.header, header(PacketType::Session));
    assert_eq!(s.weather, 3);
    assert_eq!(s.track_temp, -5);
    assert_eq!(s.air_temp, 21);
    assert_eq!(s.total_laps, buf[26]);
    assert_eq!(s.track_len, 5793);
    assert_eq!(s.session_type, buf[29]);
    assert_eq!(s.track_id, -1);
    assert_eq!(s.formual, buf[31]);
    assert_eq!(s.session_ttl, u16_at(&buf, 32));
    assert_eq!(s.session_len, u16_at(&buf, 34));
    assert_eq!(s.pit_spd_lim, buf[36]);
    assert_eq!(s.is_paused, buf[37]);
    assert_eq!(s.is_spectating, buf[38]);
    assert_eq!(s.spectator_car, buf[39]);
    assert_eq!(s.sli_native, buf[40]);
    assert_eq!(s.num_zones, 3);
    for z in 0..21 {
        assert_eq!(s.zones[z].zone_start, float_at(&buf, 42 + 5 * z));
        assert_eq!(s.zones[z].flag, get_zone_flag(buf[42 + 5 * z + 4] as i8));
    }
    assert_eq!(number(s.zones[0].zone_start), 0.25);
    assert_eq!(s.zones[0].flag, ZoneFlag::Yellow);
    assert_eq!(number(s.zones[1].zone_start), 0.5);
    assert_eq!(s.zones[1].flag, ZoneFlag::NoFlag);
    assert_eq!(number(s.zones[2].zone_start), 0.75);
    assert_eq!(s.zones[2].flag, ZoneFlag::Unknown);
    assert_eq!(s.zones[3].flag, ZoneFlag::Green);
    assert_eq!(s.zones[4].flag, ZoneFlag::Blue);
    assert_eq!(s.zones[5].flag, ZoneFlag::Red);
    assert_eq!(s.zones[6].flag, ZoneFlag::Unknown);
    assert_eq!(s.zones[20].flag, ZoneFlag::Red);
    assert_eq!(s.safety_car, 2);
    assert_eq!(s.is_network_game, 1);
    assert_eq!(parse_session_data(&buf, header(PacketType::Session), SESSION_SIZE), Ok(s));
    assert_eq!(parse_marshal_zones(&buf), Ok(s.zones));
}

#[test]
fn zone_flag_of_each_code() {
    assert_eq!(get_zone_flag(-1), ZoneFlag::Unknown);
    assert_eq!(get_zone_flag(0), ZoneFlag::NoFlag);
    assert_eq!(get_zone_flag(1), ZoneFlag::Green);
    assert_eq!(get_zone_flag(2), ZoneFlag::Blue);
    assert_eq!(get_zone_flag(3), ZoneFlag::Yellow);
    assert_eq!(get_zone_flag(4), ZoneFlag::Red);
    assert_eq!(get_zone_flag(5), ZoneFlag::Unknown);
    assert_eq!(get_zone_flag(127), ZoneFlag::Unknown);
    assert_eq!(get_zone_flag(-128), ZoneFlag::Unknown);
}

#[test]
fn lap_round_trip() {
    let mut buf = datagram(2, LAP_SIZE);
    put(&mut buf, 23 + 3 * 41, &87.345f32.to_le_bytes());
    put(&mut buf, 23 + 3 * 41 + 20, &(-12.5f32).to_le_bytes());
    buf[23 + 3 * 41 + 32] = 1;
    buf[23 + 19 * 41 + 40] = 6;
    let l = match dispatch(&buf, LAP_SIZE) {
        DecodedPacket::Lap(l) => l,
        other => panic!("not a lap packet: {:?}", other),
    };
    assert_eq!(l.header, header(PacketType::Lap));
    for i in 0..20 {
        let at = 23 + i * 41;
        let car = l.lap_data[i];
        assert_eq!(car.last_lap, float_at(&buf, at));
        assert_eq!(car.current_lap, float_at(&buf, at + 4));
        assert_eq!(car.best_lap, float_at(&buf, at + 8));
        assert_eq!(car.best_sec_1, float_at(&buf, at + 12));
        assert_eq!(car.best_sec_2, float_at(&buf, at + 16));
        assert_eq!(car.lap_distance, float_at(&buf, at + 20));
        assert_eq!(car.total_distance, float_at(&buf, at + 24));
        assert_eq!(car.safety_car_delta, float_at(&buf, at + 28));
        assert_eq!(car.position, buf[at + 32]);
        assert_eq!(car.lap_num, buf[at + 33]);
        assert_eq!(car.pit_status, buf[at + 34]);
        assert_eq!(car.sector, buf[at + 35]);
        assert_eq!(car.is_lap_valid, buf[at + 36]);
        assert_eq!(car.penalties, buf[at + 37]);
        assert_eq!(car.grid_position, buf[at + 38]);
        assert_eq!(car.driver_status, buf[at + 39]);
        assert_eq!(car.result_status, buf[at + 40]);
    }
    assert_eq!(number(l.lap_data[3].last_lap), 87.345);
    assert_eq!(number(l.lap_data[3].lap_distance), -12.5);
    assert_eq!(l.lap_data[3].position, 1);
    assert_eq!(l.lap_data[19].result_status, 6);
    assert_eq!(parse_lap_data(&buf, header(PacketType::Lap), LAP_SIZE), Ok(l));
    assert_eq!(parse_car_laps(&buf), Ok(l.lap_data));
}

#[test]
fn participants_round_trip() {
    let mut buf = datagram(4, PARTICIPANTS_SIZE);
    buf[23] = 20;
    let at = 24 + 11 * 54;
    buf[at] = 1;
    buf[at + 1] = 7;
    buf[at + 2] = 0;
    buf[at + 3] = 44;
    buf[at + 4] = 10;
    let mut name = [0u8; 48];
    name[..14].copy_from_slice(b"Lewis Hamilton");
    put(&mut buf, at + 5, &name);
    buf[at + 53] = 1;
    let p = match dispatch(&buf, PARTICIPANTS_SIZE) {
        DecodedPacket::Participants(p) => p,
        other => panic!("not a participants packet: {:?}", other),
    };
    assert_eq!(p.header, header(PacketType::Participant));
    assert_eq!(p.num_cars_active, 20);
    for i in 0..20 {
        let at = 24 + i * 54;
        let car = p.participant_data[i];
        assert_eq!(car.ai_controlled, buf[at]);
        assert_eq!(car.driver_id, buf[at + 1]);
        assert_eq!(car.team_id, buf[at + 2]);
        assert_eq!(car.race_number, buf[at + 3]);
        assert_eq!(car.nationality, buf[at + 4]);
        assert_eq!(&car.name[..], &buf[at + 5..at + 53]);
        assert_eq!(car.priv_telemetry, buf[at + 53]);
    }
    let car = p.participant_data[11];
    assert_eq!(car.ai_controlled, 1);
    assert_eq!(car.driver_id, 7);
    assert_eq!(car.team_id, 0);
    assert_eq!(car.race_number, 44);
    assert_eq!(car.nationality, 10);
    assert_eq!(car.name, name);
    assert_eq!(car.priv_telemetry, 1);
    assert_eq!(
        parse_participant_data(&buf, header(PacketType::Participant), PARTICIPANTS_SIZE),
        Ok(p)
    );
    assert_eq!(parse_participant(&buf), Ok(p.participant_data));
}

#[test]
fn name_takes_all_48_bytes() {
    let buf = pattern(100);
    let name = get_name_bytes(&buf, 10).unwrap();
    assert_eq!(&name[..], &buf[10..58]);
    assert_eq!(name[47], buf[57]);
    assert!(get_name_bytes(&buf, 52).is_ok());
    assert_eq!(get_name_bytes(&buf, 53), Err(DecodeError::OutOfBounds));
    assert_eq!(get_name_bytes(&buf, usize::MAX), Err(DecodeError::OutOfBounds));
}

#[test]
fn new_participant_is_blank() {
    let p = ParticipantData::new();
    assert_eq!(p.ai_controlled, 0);
    assert_eq!(p.driver_id, 0);
    assert_eq!(p.team_id, 0);
    assert_eq!(p.race_number, 0);
    assert_eq!(p.nationality, 0);
    assert_eq!(p.name, [0u8; 48]);
    assert_eq!(p.priv_telemetry, 0);
}

#[test]
fn setups_round_trip() {
    let mut buf = datagram(5, CARSETUPS_SIZE);
    let at = 23 + 19 * 41;
    buf[at] = 11;
    put(&mut buf, at + 4, &(-3.5f32).to_le_bytes());
    put(&mut buf, at + 37, &105.25f32.to_le_bytes());
    let s = match dispatch(&buf, CARSETUPS_SIZE) {
        DecodedPacket::Setups(s) => s,
        other => panic!("not a setups packet: {:?}", other),
    };
    assert_eq!(s.header, header(PacketType::Setup));
    for i in 0..20 {
        let at = 23 + i * 41;
        let car = s.car_setups[i];
        assert_eq!(car.front_wing, buf[at]);
        assert_eq!(car.rear_wing, buf[at + 1]);
        assert_eq!(car.on_throttle, buf[at + 2]);
        assert_eq!(car.off_throttle, buf[at + 3]);
        assert_eq!(car.front_camber, float_at(&buf, at + 4));
        assert_eq!(car.rear_camber, float_at(&buf, at + 8));
        assert_eq!(car.front_toe, float_at(&buf, at + 12));
        assert_eq!(car.rear_toe, float_at(&buf, at + 16));
        assert_eq!(car.front_suspension, buf[at + 20]);
        assert_eq!(car.rear_suspension, buf[at + 21]);
        assert_eq!(car.front_anti_roll_bar, buf[at + 22]);
        assert_eq!(car.rear_anti_roll_bar, buf[at + 23]);
        assert_eq!(car.front_suspension_height, buf[at + 24]);
        assert_eq!(car.rear_suspension_height, buf[at + 25]);
        assert_eq!(car.brake_pressure, buf[at + 26]);
        assert_eq!(car.brake_bias, buf[at + 27]);
        assert_eq!(car.front_tyre_pressure, float_at(&buf, at + 28));
        assert_eq!(car.rear_tyre_pressure, float_at(&buf, at + 32));
        assert_eq!(car.ballast, buf[at + 36]);
        assert_eq!(car.fuel_load, float_at(&buf, at + 37));
    }
    assert_eq!(s.car_setups[19].front_wing, 11);
    assert_eq!(number(s.car_setups[19].front_camber), -3.5);
    assert_eq!(number(s.car_setups[19].fuel_load), 105.25);
    assert_eq!(parse_setups(&buf, header(PacketType::Setup), CARSETUPS_SIZE), Ok(s));
    assert_eq!(parse_car_setup(&buf), Ok(s.car_setups));
}

#[test]
fn telemetry_round_trip() {
    let mut buf = datagram(6, TELEMETRY_SIZE);
    let at = 23 + 5 * 66;
    put(&mut buf, at, &312u16.to_le_bytes());
    put(&mut buf, at + 2, &1.0f32.to_le_bytes());
    buf[at + 15] = (-1i8) as u8;
    put(&mut buf, at + 20, &900u16.to_le_bytes());
    put(&mut buf, at + 22, &901u16.to_le_bytes());
    put(&mut buf, at + 24, &902u16.to_le_bytes());
    put(&mut buf, at + 26, &903u16.to_le_bytes());
    put(&mut buf, at + 46 + 8, &23.5f32.to_le_bytes());
    buf[at + 65] = 11;
    put(&mut buf, 1343, &0x0000_4001u32.to_le_bytes());
    let t = match dispatch(&buf, TELEMETRY_SIZE) {
        DecodedPacket::Telemetry(t) => t,
        other => panic!("not a telemetry packet: {:?}", other),
    };
    assert_eq!(t.header, header(PacketType::Telemetry));
    for i in 0..20 {
        let at = 23 + i * 66;
        let car = t.car_telemetry_data[i];
        assert_eq!(car.car_speed, u16_at(&buf, at));
        assert_eq!(car.throttle_pos, float_at(&buf, at + 2));
        assert_eq!(car.steering_pos, float_at(&buf, at + 6));
        assert_eq!(car.brake_pos, float_at(&buf, at + 10));
        assert_eq!(car.clutch_pos, buf[at + 14]);
        assert_eq!(car.gear, buf[at + 15] as i8);
        assert_eq!(car.engine_rpm, u16_at(&buf, at + 16));
        assert_eq!(car.drs_active, buf[at + 18]);
        assert_eq!(car.change_light_perc, buf[at + 19]);
        for w in 0..4 {
            assert_eq!(car.brake_temps[w], u16_at(&buf, at + 20 + 2 * w));
            assert_eq!(car.tyre_surface_temps[w], u16_at(&buf, at + 28 + 2 * w));
            assert_eq!(car.tyre_inner_temps[w], u16_at(&buf, at + 36 + 2 * w));
            assert_eq!(car.tyre_pressures[w], float_at(&buf, at + 46 + 4 * w));
            assert_eq!(car.tyre_contact_types[w], buf[at + 62 + w]);
        }
        assert_eq!(car.engine_temp, u16_at(&buf, at + 44));
    }
    let car = t.car_telemetry_data[5];
    assert_eq!(car.car_speed, 312);
    assert_eq!(number(car.throttle_pos), 1.0);
    assert_eq!(car.gear, -1);
    assert_eq!(car.brake_temps[REAR_LEFT], 900);
    assert_eq!(car.brake_temps[REAR_RIGHT], 901);
    assert_eq!(car.brake_temps[FRONT_LEFT], 902);
    assert_eq!(car.brake_temps[FRONT_RIGHT], 903);
    assert_eq!(number(car.tyre_pressures[FRONT_LEFT]), 23.5);
    assert_eq!(car.tyre_contact_types[FRONT_RIGHT], 11);
    assert_eq!(t.button_status, 0x0000_4001);
    assert_eq!(t.button_status, u32_at(&buf, 1343));
    assert_eq!(parse_telemetry_data(&buf, header(PacketType::Telemetry), TELEMETRY_SIZE), Ok(t));
    assert_eq!(parse_car_telemetry(&buf), Ok(t.car_telemetry_data));
}

#[test]
fn car_status_round_trip() {
    let mut buf = datagram(7, STATUS_SIZE);
    let at = 23 + 13 * 56;
    buf[at] = 2;
    put(&mut buf, at + 5, &42.25f32.to_le_bytes());
    put(&mut buf, at + 17, &13000u16.to_le_bytes());
    put(&mut buf, at + 23, &[10, 20, 30, 40]);
    put(&mut buf, at + 29, &[1, 2, 3, 4]);
    buf[at + 38] = (-1i8) as u8;
    put(&mut buf, at + 52, &4_000_000.0f32.to_le_bytes());
    let s = match dispatch(&buf, STATUS_SIZE) {
        DecodedPacket::CarStatus(s) => s,
        other => panic!("not a car status packet: {:?}", other),
    };
    assert_eq!(s.header, header(PacketType::CarStatus));
    for i in 0..20 {
        let at = 23 + i * 56;
        let car = s.car_status_data[i];
        assert_eq!(car.traction_control, buf[at]);
        assert_eq!(car.anti_lock_brakes, buf[at + 1]);
        assert_eq!(car.fuel_mix, buf[at + 2]);
        assert_eq!(car.front_brake_bias, buf[at + 3]);
        assert_eq!(car.pit_limiter_status, buf[at + 4]);
        assert_eq!(car.fuel_in_tank, float_at(&buf, at + 5));
        assert_eq!(car.fuel_capacity, float_at(&buf, at + 9));
        assert_eq!(car.fuel_remaining_laps, float_at(&buf, at + 13));
        assert_eq!(car.max_rpm, u16_at(&buf, at + 17));
        assert_eq!(car.idle_rpm, u16_at(&buf, at + 19));
        assert_eq!(car.max_gears, buf[at + 21]);
        assert_eq!(car.drs_allowed, buf[at + 22]);
        assert_eq!(&car.tyres_wear[..], &buf[at + 23..at + 27]);
        assert_eq!(car.actual_tyre_compound, buf[at + 27]);
        assert_eq!(car.tyre_visual_compound, buf[at + 28]);
        assert_eq!(&car.tyres_damage[..], &buf[at + 29..at + 33]);
        assert_eq!(car.front_left_wing_damage, buf[at + 33]);
        assert_eq!(car.front_right_wing_damage, buf[at + 34]);
        assert_eq!(car.rear_wing_damage, buf[at + 35]);
        assert_eq!(car.engine_damage, buf[at + 36]);
        assert_eq!(car.gear_box_damage, buf[at + 37]);
        assert_eq!(car.vehicle_fia_flags, buf[at + 38] as i8);
        assert_eq!(car.ers_store_energy, float_at(&buf, at + 39));
        assert_eq!(car.ers_deploy_mode, buf[at + 43]);
        assert_eq!(car.ers_harvested_this_lap_mguk, float_at(&buf, at + 44));
        assert_eq!(car.ers_harvested_this_lap_mguh, float_at(&buf, at + 48));
        assert_eq!(car.ers_deployed_this_lap, float_at(&buf, at + 52));
    }
    let car = s.car_status_data[13];
    assert_eq!(car.traction_control, 2);
    assert_eq!(number(car.fuel_in_tank), 42.25);
    assert_eq!(car.max_rpm, 13000);
    assert_eq!(car.tyres_wear, [10, 20, 30, 40]);
    assert_eq!(car.tyres_damage, [1, 2, 3, 4]);
    assert_eq!(car.vehicle_fia_flags, -1);
    assert_eq!(number(car.ers_deployed_this_lap), 4_000_000.0);
    assert_eq!(parse_car_status_data(&buf, header(PacketType::CarStatus), STATUS_SIZE), Ok(s));
    assert_eq!(parse_car_status(&buf), Ok(s.car_status_data));
}

#[test]
fn per_car_walkers_need_the_whole_array() {
    let buf = pattern(MAX_PACKET_SIZE);
    assert_eq!(parse_car_motion(&buf[..HEADER_SIZE + 1199]), Err(DecodeError::OutOfBounds));
    assert!(parse_car_motion(&buf[..HEADER_SIZE + 1200]).is_ok());
    assert_eq!(parse_car_laps(&buf[..842]), Err(DecodeError::OutOfBounds));
    assert!(parse_car_laps(&buf[..843]).is_ok());
    assert_eq!(parse_participant(&buf[..1103]), Err(DecodeError::OutOfBounds));
    assert!(parse_participant(&buf[..1104]).is_ok());
    assert_eq!(parse_car_setup(&buf[..842]), Err(DecodeError::OutOfBounds));
    assert!(parse_car_setup(&buf[..843]).is_ok());
    assert_eq!(parse_car_telemetry(&buf[..1342]), Err(DecodeError::OutOfBounds));
    assert!(parse_car_telemetry(&buf[..1343]).is_ok());
    assert_eq!(parse_car_status(&buf[..1142]), Err(DecodeError::OutOfBounds));
    assert!(parse_car_status(&buf[..1143]).is_ok());
    assert_eq!(parse_marshal_zones(&buf[..146]), Err(DecodeError::OutOfBounds));
    assert!(parse_marshal_zones(&buf[..147]).is_ok());
}

#[test]
fn decoding_twice_gives_equal_records() {
    let sizes = [
        (0u8, MOTION_SIZE),
        (1, SESSION_SIZE),
        (2, LAP_SIZE),
        (4, PARTICIPANTS_SIZE),
        (5, CARSETUPS_SIZE),
        (6, TELEMETRY_SIZE),
        (7, STATUS_SIZE),
    ];
    for (byte, size) in sizes {
        let buf = datagram(byte, size);
        let before = buf.clone();
        let first = dispatch(&buf, size);
        let second = dispatch(&buf, size);
        assert!(!matches!(first, DecodedPacket::Ignored(_)));
        assert_eq!(first, second);
        assert_eq!(buf, before);
    }
}

#[test]
fn bytes_behind_the_datagram_are_not_read() {
    let mut a = datagram(2, MAX_PACKET_SIZE);
    let mut b = datagram(2, LAP_SIZE);
    for i in LAP_SIZE..MAX_PACKET_SIZE {
        a[i] = 0xEE;
    }
    let in_large = dispatch(&a, LAP_SIZE);
    let alone = dispatch(&b, LAP_SIZE);
    assert!(matches!(in_large, DecodedPacket::Lap(_)));
    assert_eq!(in_large, alone);
    b.push(1);
    assert_eq!(dispatch(&b, LAP_SIZE), alone);
}
