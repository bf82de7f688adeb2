use quiche_bench::block::BlockFormat;
use quiche_bench::packet::{
    filled_id, random_conn_id, read_header, PacketHeader, PacketType, MAX_CONN_ID_LEN,
};
use quiche_bench::subscriber::{route_header, route_packet, Inbound, Route, Subscriber};
use quiche_bench::transport::{
    first_packet, flush_step, next_deadline, FirstPacket, FlushStep, PacketOutcome, ReadOutcome,
};

fn initial_packet() -> Vec<u8> {
    let mut packet = vec![0xc3, 0, 0, 0, 1, 8];
    packet.extend_from_slice(&[11, 12, 13, 14, 15, 16, 17, 18]);
    packet.push(2);
    packet.extend_from_slice(&[1, 2]);
    packet.push(0);
    packet.extend_from_slice(&[0x41, 0x00]);
    packet
}

#[test]
fn identifiers_have_the_length_of_quic() {
    assert_eq!(MAX_CONN_ID_LEN, quiche::MAX_CONN_ID_LEN);
    let first = random_conn_id().unwrap();
    let second = random_conn_id().unwrap();
    assert_eq!(first.len(), 20);
    assert_eq!(second.len(), 20);
    assert_ne!(first, vec![0u8; 20]);
    assert_ne!(first, second);
}

#[test]
fn initial_header_is_read() {
    let header = read_header(&initial_packet()).unwrap();
    assert_eq!(header.ty, PacketType::Initial);
    assert_eq!(header.dcid, vec![11, 12, 13, 14, 15, 16, 17, 18]);
}

#[test]
fn other_long_headers_are_told_apart() {
    let mut packet = initial_packet();
    packet[0] = 0xd0;
    assert_eq!(read_header(&packet).unwrap().ty, PacketType::ZeroRtt);
    packet[0] = 0xe0;
    assert_eq!(read_header(&packet).unwrap().ty, PacketType::Handshake);
    packet[0] = 0xf0;
    assert!(read_header(&packet).is_err());
    packet.extend_from_slice(&[0; 16]);
    assert_eq!(read_header(&packet).unwrap().ty, PacketType::Retry);
    let negotiation = vec![0x80, 0, 0, 0, 0, 1, 9, 0, 0, 0, 0, 1];
    let header = read_header(&negotiation).unwrap();
    assert_eq!(header.ty, PacketType::VersionNegotiation);
    assert_eq!(header.dcid, vec![9]);
}

#[test]
fn short_header_has_the_identifier_behind_its_first_byte() {
    let packet: Vec<u8> = (0x40..0x40 + 30).collect();
    let header = read_header(&packet).unwrap();
    assert_eq!(header.ty, PacketType::Short);
    assert_eq!(header.dcid, packet[1..21].to_vec());
    assert!(read_header(&packet[..21]).is_ok());
    assert!(read_header(&packet[..20]).is_err());
    assert!(read_header(&[]).is_err());
}

#[test]
fn long_header_may_be_refused() {
    let mut packet = initial_packet();
    packet[5] = 21;
    packet.extend_from_slice(&[0; 40]);
    assert!(read_header(&packet).is_err());
    assert!(read_header(&initial_packet()[..10]).is_err());
}

#[test]
fn packets_are_routed() {
    let initial = initial_packet();
    let short: Vec<u8> = vec![0x40; 30];
    assert!(matches!(route_packet(false, &initial), Route::Accept));
    assert!(matches!(route_packet(true, &initial), Route::Deliver));
    assert!(matches!(route_packet(false, &short), Route::Ignore));
    assert!(matches!(route_packet(true, &short), Route::Deliver));
    assert!(matches!(
        route_packet(true, &[]),
        Route::Malformed(quiche::Error::BufferTooShort)
    ));
}

#[test]
fn headers_are_routed() {
    let retry = Ok(PacketHeader { ty: PacketType::Retry, dcid: vec![] });
    assert!(matches!(route_header(false, &retry), Route::Ignore));
    assert!(matches!(route_header(true, &retry), Route::Deliver));
    let bad = Err(quiche::Error::InvalidPacket);
    assert!(matches!(
        route_header(true, &bad),
        Route::Malformed(quiche::Error::InvalidPacket)
    ));
}

#[test]
fn reads_are_taken_in() {
    let format = BlockFormat::new(5, 16).unwrap();
    let mut subscriber = Subscriber::new(format);
    assert_eq!(subscriber.deadline(), None);
    assert_eq!(subscriber.read_size(), 32);
    let mut block = format.blank();
    format.stamp(&mut block, 9);
    let mut buf = vec![0; 32];
    buf[..16].copy_from_slice(&block);
    let empty = ReadOutcome::Data { read: 0, fin: true };
    assert!(matches!(subscriber.take(empty, &buf), Inbound::Nothing));
    assert!(matches!(subscriber.take(ReadOutcome::Blocked, &buf), Inbound::Yield));
    let failed = ReadOutcome::Failed(quiche::Error::StreamReset(3));
    assert!(matches!(
        subscriber.take(failed, &buf),
        Inbound::Failed(quiche::Error::StreamReset(3))
    ));
    match subscriber.take(ReadOutcome::Data { read: 10, fin: false }, &buf) {
        Inbound::Blocks(blocks) => assert!(blocks.is_empty()),
        _ => panic!("data was read"),
    }
    let mut rest = vec![0; 32];
    rest[..6].copy_from_slice(&block[10..]);
    match subscriber.take(ReadOutcome::Data { read: 6, fin: false }, &rest) {
        Inbound::Blocks(blocks) => assert_eq!(blocks, vec![block]),
        _ => panic!("data was read"),
    }
}

#[test]
fn timer_stays_where_no_timeout_is_named() {
    assert_eq!(next_deadline(None, 100, None), None);
    assert_eq!(next_deadline(Some(7), 100, None), Some(7));
    assert_eq!(next_deadline(Some(7), 100, Some(20)), Some(120));
    assert_eq!(next_deadline(None, 100, Some(0)), Some(100));
}

#[test]
fn identifiers_need_randomness() {
    assert_eq!(filled_id(Ok(()), vec![3; 20]).unwrap(), vec![3; 20]);
    assert!(filled_id(Err(ring::error::Unspecified), vec![3; 20]).is_err());
}

#[test]
fn long_headers_have_to_be_whole() {
    let whole = initial_packet();
    assert_eq!(whole.len(), 20);
    for len in 0..18 {
        let short = read_header(&whole[..len]);
        assert!(matches!(short, Err(quiche::Error::BufferTooShort)));
    }
    assert!(read_header(&whole[..18]).is_ok());
    let mut token = whole[..17].to_vec();
    token.extend_from_slice(&[0x40, 3, 1, 2]);
    assert!(read_header(&token).is_err());
    token.push(3);
    assert!(read_header(&token).is_ok());
    let mut wide = whole[..17].to_vec();
    wide.extend_from_slice(&[0xc0, 0, 0, 0, 0, 0, 0, 1]);
    assert!(read_header(&wide).is_err());
    wide.push(9);
    assert!(read_header(&wide).is_ok());
    let mut source = whole.clone();
    source[14] = 21;
    source.extend_from_slice(&[0; 40]);
    assert!(matches!(read_header(&source), Err(quiche::Error::InvalidPacket)));
    source[4] = 2;
    assert!(read_header(&source).is_ok());
    let list = vec![0x80, 0, 0, 0, 0, 0, 0, 1, 2, 3];
    assert!(read_header(&list).is_err());
    assert!(read_header(&list[..7]).is_ok());
}

#[test]
fn unreadable_packets_keep_their_error() {
    let mut packet = initial_packet();
    packet[5] = 21;
    packet.extend_from_slice(&[0; 40]);
    assert!(matches!(
        route_packet(false, &packet),
        Route::Malformed(quiche::Error::InvalidPacket)
    ));
    assert!(matches!(
        route_packet(false, &packet[..3]),
        Route::Malformed(quiche::Error::BufferTooShort)
    ));
}

#[test]
fn flushing_stops_where_no_packet_comes() {
    let failed = PacketOutcome::Failed(quiche::Error::TlsFail);
    assert!(matches!(flush_step(PacketOutcome::Idle), FlushStep::Stop { report: None }));
    assert!(matches!(
        flush_step(failed),
        FlushStep::Stop { report: Some(quiche::Error::TlsFail) }
    ));
    assert!(matches!(
        first_packet(PacketOutcome::Idle),
        FirstPacket::Missing { error: None }
    ));
    assert!(matches!(
        first_packet(failed),
        FirstPacket::Missing { error: Some(quiche::Error::TlsFail) }
    ));
}
