use f1_telemetry::dispatch::{dispatch, DecodedPacket};
use f1_telemetry::error::DecodeError;
use f1_telemetry::event::{
    parse_event_data, parse_event_identifier, parse_multipart_event, Event, EventType,
};
use f1_telemetry::header::{parse_header, PacketHeader, PacketType};
use f1_telemetry::wire::FloatBits;

fn header() -> PacketHeader {
    PacketHeader::new(2019, 1, 22, 1, PacketType::Event, 77, FloatBits { bits: 0 }, 9, 0)
}

fn event_datagram(payload: &[u8]) -> Vec<u8> {
    let mut buf = vec![0u8; 23];
    buf[0..2].copy_from_slice(&2019u16.to_le_bytes());
    buf[2] = 1;
    buf[3] = 22;
    buf[4] = 1;
    buf[5] = 3;
    buf[6..14].copy_from_slice(&77u64.to_le_bytes());
    buf[18..22].copy_from_slice(&9u32.to_le_bytes());
    buf.extend_from_slice(payload);
    buf
}

fn plain(event_type: EventType) -> Event {
    Event { header: header(), event_type, car_idx: None, lap_time: None }
}

fn with_car(event_type: EventType, car: u8) -> Event {
    Event { header: header(), event_type, car_idx: Some(car), lap_time: None }
}

#[test]
fn each_code_of_the_feed() {
    assert_eq!(parse_event_identifier(b"SSTA"), Ok(EventType::SessionStarted));
    assert_eq!(parse_event_identifier(b"SEND"), Ok(EventType::SessionEnded));
    assert_eq!(parse_event_identifier(b"FTLP"), Ok(EventType::FastestLap));
    assert_eq!(parse_event_identifier(b"RTMT"), Ok(EventType::Retirement));
    assert_eq!(parse_event_identifier(b"DRSE"), Ok(EventType::DrsEnabled));
    assert_eq!(parse_event_identifier(b"DRSD"), Ok(EventType::DrsDisabled));
    assert_eq!(parse_event_identifier(b"TMPT"), Ok(EventType::TeamMateInPits));
    assert_eq!(parse_event_identifier(b"CHQF"), Ok(EventType::ChequeredFlag));
    assert_eq!(parse_event_identifier(b"RCWN"), Ok(EventType::RaceWinner));
}

#[test]
fn code_is_recognised_by_its_sum() {
    assert_eq!(parse_event_identifier(&[83, 83, 84, 65]), Ok(EventType::SessionStarted));
    assert_eq!(parse_event_identifier(&[65, 84, 83, 83]), Ok(EventType::SessionStarted));
    assert_eq!(parse_event_identifier(&[255, 60, 0, 0]), Ok(EventType::SessionStarted));
    assert_eq!(parse_event_identifier(&[0, 0, 55, 255]), Ok(EventType::FastestLap));
    assert_eq!(parse_event_identifier(&[75, 75, 75, 75]), Err(DecodeError::UnrecognizedType));
    assert_eq!(parse_event_identifier(&[59, 1, 0, 0]), Err(DecodeError::UnrecognizedType));
    assert_eq!(parse_event_identifier(&[0, 0, 0, 0]), Err(DecodeError::UnrecognizedType));
    assert_eq!(
        parse_event_identifier(&[255, 255, 255, 255]),
        Err(DecodeError::UnrecognizedType)
    );
    assert_eq!(parse_event_identifier(b"SSTB"), Err(DecodeError::UnrecognizedType));
}

#[test]
fn code_reads_only_its_four_bytes() {
    assert_eq!(parse_event_identifier(b"SSTA\xff\xff\xff"), Ok(EventType::SessionStarted));
    assert_eq!(parse_event_identifier(b"SST"), Err(DecodeError::OutOfBounds));
    assert_eq!(parse_event_identifier(b""), Err(DecodeError::OutOfBounds));
}

#[test]
fn session_started_has_no_car_and_no_lap_time() {
    let buf = event_datagram(b"SSTA");
    assert_eq!(buf.len(), 27);
    let h = parse_header(&buf, 27).unwrap();
    assert_eq!(h, header());
    let e = parse_event_data(&buf, h).unwrap();
    assert_eq!(e, plain(EventType::SessionStarted));
    assert_eq!(e.car_idx, None);
    assert_eq!(e.lap_time, None);
    assert_eq!(dispatch(&buf, 27), DecodedPacket::Event(e));
    let longer = event_datagram(b"SSTA\x03\x01\x02\x03\x04");
    assert_eq!(parse_event_data(&longer, h), Ok(e));
    assert_eq!(dispatch(&longer, 32), DecodedPacket::Event(e));
}

#[test]
fn fastest_lap_carries_car_and_lap_time() {
    let mut payload = b"FTLP".to_vec();
    payload.push(3);
    payload.extend_from_slice(&87.345f32.to_le_bytes());
    let buf = event_datagram(&payload);
    assert_eq!(buf.len(), 32);
    let e = match dispatch(&buf, 32) {
        DecodedPacket::Event(e) => e,
        other => panic!("not an event: {:?}", other),
    };
    assert_eq!(e.header, header());
    assert_eq!(e.event_type, EventType::FastestLap);
    assert_eq!(e.car_idx, Some(3));
    assert_eq!(e.lap_time, Some(FloatBits { bits: 87.345f32.to_bits() }));
    assert_eq!(f32::from_bits(e.lap_time.unwrap().bits), 87.345f32);
    assert_eq!(parse_event_data(&buf, header()), Ok(e));
}

#[test]
fn fastest_lap_needs_all_nine_bytes() {
    let mut payload = b"FTLP".to_vec();
    payload.push(3);
    payload.extend_from_slice(&87.345f32.to_le_bytes());
    let buf = event_datagram(&payload);
    for len in 27..32 {
        assert_eq!(parse_event_data(&buf[..len], header()), Err(DecodeError::OutOfBounds));
        assert_eq!(dispatch(&buf[..len], len), DecodedPacket::Ignored(DecodeError::OutOfBounds));
        assert_eq!(dispatch(&buf, len), DecodedPacket::Ignored(DecodeError::OutOfBounds));
    }
    assert!(parse_event_data(&buf[..32], header()).is_ok());
}

#[test]
fn car_events_carry_a_car_and_no_lap_time() {
    for (code, event_type) in [
        (b"RTMT", EventType::Retirement),
        (b"TMPT", EventType::TeamMateInPits),
        (b"RCWN", EventType::RaceWinner),
    ] {
        let mut payload = code.to_vec();
        payload.push(17);
        let buf = event_datagram(&payload);
        assert_eq!(parse_event_data(&buf, header()), Ok(with_car(event_type, 17)));
        assert_eq!(dispatch(&buf, 28), DecodedPacket::Event(with_car(event_type, 17)));
        assert_eq!(parse_event_data(&buf[..27], header()), Err(DecodeError::OutOfBounds));
        payload.extend_from_slice(&[9, 9, 9, 9]);
        let buf = event_datagram(&payload);
        assert_eq!(parse_event_data(&buf, header()), Ok(with_car(event_type, 17)));
    }
}

#[test]
fn car_255_is_a_car() {
    let buf = event_datagram(b"RTMT\xff");
    assert_eq!(parse_event_data(&buf, header()).unwrap().car_idx, Some(255));
    let buf = event_datagram(b"SEND\xff");
    assert_eq!(parse_event_data(&buf, header()).unwrap().car_idx, None);
}

#[test]
fn events_without_a_car() {
    for (code, event_type) in [
        (b"SSTA", EventType::SessionStarted),
        (b"SEND", EventType::SessionEnded),
        (b"DRSE", EventType::DrsEnabled),
        (b"DRSD", EventType::DrsDisabled),
        (b"CHQF", EventType::ChequeredFlag),
    ] {
        let buf = event_datagram(code);
        assert_eq!(parse_event_data(&buf, header()), Ok(plain(event_type)));
        assert_eq!(dispatch(&buf, 27), DecodedPacket::Event(plain(event_type)));
    }
}

#[test]
fn unknown_code_is_ignored() {
    let buf = event_datagram(b"ABCD\x01\x02\x03\x04\x05");
    assert_eq!(parse_event_data(&buf, header()), Err(DecodeError::UnrecognizedType));
    assert_eq!(dispatch(&buf, 32), DecodedPacket::Ignored(DecodeError::UnrecognizedType));
}

#[test]
fn event_needs_a_header_and_a_code() {
    let buf = event_datagram(b"SSTA");
    assert_eq!(parse_event_data(&buf[..22], header()), Err(DecodeError::OutOfBounds));
    assert_eq!(parse_event_data(&buf[..23], header()), Err(DecodeError::OutOfBounds));
    assert_eq!(parse_event_data(&buf[..26], header()), Err(DecodeError::OutOfBounds));
    assert_eq!(dispatch(&buf[..26], 27), DecodedPacket::Ignored(DecodeError::OutOfBounds));
    assert_eq!(dispatch(&buf[..26], 26), DecodedPacket::Ignored(DecodeError::TooShort));
}

#[test]
fn multipart_event_by_type() {
    let mut payload = b"....".to_vec();
    payload.push(12);
    payload.extend_from_slice(&61.5f32.to_le_bytes());
    let lap = Some(FloatBits { bits: 61.5f32.to_bits() });
    assert_eq!(
        parse_multipart_event(&payload, EventType::FastestLap, header()),
        Ok(Event {
            header: header(),
            event_type: EventType::FastestLap,
            car_idx: Some(12),
            lap_time: lap,
        })
    );
    assert_eq!(
        parse_multipart_event(&payload[..8], EventType::FastestLap, header()),
        Err(DecodeError::OutOfBounds)
    );
    assert_eq!(
        parse_multipart_event(&payload, EventType::Retirement, header()),
        Ok(with_car(EventType::Retirement, 12))
    );
    assert_eq!(
        parse_multipart_event(&payload[..4], EventType::Retirement, header()),
        Err(DecodeError::OutOfBounds)
    );
    assert_eq!(
        parse_multipart_event(&payload, EventType::DrsEnabled, header()),
        Ok(plain(EventType::DrsEnabled))
    );
    assert_eq!(
        parse_multipart_event(&payload[..4], EventType::DrsEnabled, header()),
        Ok(plain(EventType::DrsEnabled))
    );
    assert_eq!(
        parse_multipart_event(&payload[..3], EventType::DrsEnabled, header()),
        Err(DecodeError::OutOfBounds)
    );
}

#[test]
fn stale_bytes_behind_an_event_are_not_read() {
    let mut buf = event_datagram(b"RTMT");
    buf.extend_from_slice(&[5, 1, 2, 3, 4, 5, 6, 7]);
    assert_eq!(dispatch(&buf, 27), DecodedPacket::Ignored(DecodeError::OutOfBounds));
    assert_eq!(dispatch(&buf, 28), DecodedPacket::Event(with_car(EventType::Retirement, 5)));
}

#[test]
fn decoding_an_event_twice() {
    let mut payload = b"FTLP".to_vec();
    payload.push(3);
    payload.extend_from_slice(&87.345f32.to_le_bytes());
    let buf = event_datagram(&payload);
    let before = buf.clone();
    assert_eq!(dispatch(&buf, 32), dispatch(&buf, 32));
    assert_eq!(buf, before);
}
