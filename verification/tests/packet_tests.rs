use magic_loc_protocol::packet::DecodeError;
use magic_loc_protocol::packet::DeviceTimestamp;
use magic_loc_protocol::packet::FinalPacket;
use magic_loc_protocol::packet::PacketType;
use magic_loc_protocol::packet::PollPacket;
use magic_loc_protocol::packet::ResponsePacket;

#[test]
fn test_poll_packet() {
    let poll_packet = PollPacket::new(PacketType::Poll, 0, 0x12356789);

    let poll_packet_bytes = poll_packet.encode();

    assert_eq!(poll_packet_bytes, vec![0x00, 0x89, 0x67, 0x35, 0x12, 0x00]);
}

#[test]
fn test_response_packet() {
    let response_packet = ResponsePacket::new(PacketType::Response, 0);

    let response_packet_bytes = response_packet.encode();

    assert_eq!(response_packet_bytes, vec![0x1]);
}

#[test]
fn test_final_packet() {
    let final_packet = FinalPacket::new(
        PacketType::Final,
        0,
        [0x12356789, 0x12356789, 0x12356789],
        0xDEADBEEF,
    );

    let final_packet_bytes = final_packet.encode();
    let mut ts_bytes: [u8; 5] = [0; 5];
    ts_bytes.copy_from_slice(&(0x12356789u64.to_le_bytes()[..5]));

    assert_eq!(
        final_packet_bytes,
        vec![
            0x02, 0x89, 0x67, 0x35, 0x12, 0x00, 0x89, 0x67, 0x35, 0x12, 0x00, 0x89, 0x67, 0x35,
            0x12, 0x00, 0xEF, 0xBE, 0xAD, 0xDE, 0x00
        ]
    );

    assert_eq!(&final_packet_bytes[1..6], &ts_bytes[..]);

    let decoded = FinalPacket::decode(&final_packet_bytes).unwrap();

    assert_eq!(decoded, final_packet);
}

#[test]
fn test_device_timestamp() {
    let dt = DeviceTimestamp::new(0x12356789);

    assert_eq!(dt.bytes, [0x89, 0x67, 0x35, 0x12, 0x00]);
    assert_eq!(core::mem::size_of::<DeviceTimestamp>(), 5);
}

#[test]
fn device_timestamp_value_round_trip() {
    assert_eq!(DeviceTimestamp::new(0).value(), 0);
    assert_eq!(DeviceTimestamp::new(0x12356789).value(), 0x12356789);
    assert_eq!(DeviceTimestamp::new(0xFF_FFFF_FFFF).value(), 0xFF_FFFF_FFFF);
}

#[test]
fn poll_round_trip_boundary_values() {
    let cases = [
        (PacketType::Poll, 0u8, 0u64),
        (PacketType::Response, 3, 1),
        (PacketType::Final, 15, 0xFF_FFFF_FFFF),
        (PacketType::Reserved, 1, 0xDEADBEEF),
    ];
    for &(packet_type, resv, ts) in cases.iter() {
        let p = PollPacket::new(packet_type, resv, ts);
        let decoded = PollPacket::decode(&p.encode()).unwrap();
        assert_eq!(decoded, p);
    }
}

#[test]
fn response_round_trip_boundary_values() {
    let cases = [
        (PacketType::Poll, 0u8),
        (PacketType::Response, 15),
        (PacketType::Final, 7),
        (PacketType::Reserved, 0),
    ];
    for &(packet_type, resv) in cases.iter() {
        let p = ResponsePacket::new(packet_type, resv);
        let decoded = ResponsePacket::decode(&p.encode()).unwrap();
        assert_eq!(decoded, p);
    }
}

#[test]
fn final_round_trip_boundary_values() {
    let p = FinalPacket::new(PacketType::Final, 15, [0, 0xFF_FFFF_FFFF, 0x12356789], 0);
    let decoded = FinalPacket::decode(&p.encode()).unwrap();
    assert_eq!(decoded, p);
}

#[test]
fn unknown_packet_type_decodes_to_reserved() {
    assert_eq!(PacketType::from_bits(0), PacketType::Poll);
    assert_eq!(PacketType::from_bits(1), PacketType::Response);
    assert_eq!(PacketType::from_bits(2), PacketType::Final);
    assert_eq!(PacketType::from_bits(3), PacketType::Reserved);
    assert_eq!(PacketType::from_bits(7), PacketType::Reserved);
    assert_eq!(PacketType::from_bits(15), PacketType::Reserved);

    let p = PollPacket::decode(&[0x0F, 0, 0, 0, 0, 0]).unwrap();
    assert_eq!(p.packet_type, PacketType::Reserved);
}

#[test]
fn decode_rejects_wrong_length_buffers() {
    assert_eq!(PollPacket::decode(&[0u8; 5]), Err(DecodeError::BadLength));
    assert_eq!(PollPacket::decode(&[0u8; 7]), Err(DecodeError::BadLength));
    assert_eq!(ResponsePacket::decode(&[]), Err(DecodeError::BadLength));
    assert_eq!(ResponsePacket::decode(&[0u8; 2]), Err(DecodeError::BadLength));
    assert!(FinalPacket::decode(&[0u8; 20]).is_err());
    assert!(FinalPacket::decode(&[0u8; 22]).is_err());
}

#[test]
fn final_packet_header_reads_first_byte() {
    let p = FinalPacket::new(PacketType::Final, 5, [1, 2, 3], 4);
    let header = p.header();
    assert_eq!(header.packet_type, PacketType::Final);
    assert_eq!(header.resv, 5);
}
