use quiche_bench::dcid_server;
use quiche_bench::dcid_server::{locate_header, locate_packet, take_chunk, Destination, ReadStep};
use quiche_bench::echo_client;
use quiche_bench::packet::{PacketHeader, PacketType};
use quiche_bench::ping_client;
use quiche_bench::quic_config::{
    bench_settings, complete_config, with_credentials, CongestionControl, Credentials,
    DatagramQueues, SetupError, APPLICATION_PROTO,
};
use quiche_bench::registry::{same_bytes, Registry};
use quiche_bench::schedule::publisher_delays;
use quiche_bench::server::{enroll, sort_header, sort_packet, Client, Ingress, StreamReport};
use quiche_bench::transport::ReadOutcome;

#[test]
fn bytes_are_compared() {
    assert!(same_bytes(&[], &[]));
    assert!(same_bytes(&[1, 2], &[1, 2]));
    assert!(!same_bytes(&[1, 2], &[1, 3]));
    assert!(!same_bytes(&[1, 2], &[1]));
}

#[test]
fn registry_finds_what_was_inserted() {
    let mut registry: Registry<u32> = Registry::new();
    assert_eq!(registry.len(), 0);
    assert_eq!(registry.find(b"a"), None);
    registry.insert(b"a".to_vec(), 1);
    registry.insert(b"b".to_vec(), 2);
    assert_eq!(registry.len(), 2);
    assert_eq!(registry.find(b"b"), Some(1));
    assert_eq!(registry.key(1), b"b");
    assert_eq!(*registry.value(1), 2);
    *registry.value_mut(1) = 7;
    assert_eq!(*registry.value(1), 7);
    assert_eq!(*registry.value(0), 1);
    assert_eq!(registry.find(b"c"), None);
}

#[test]
fn packets_are_sorted_by_sender_and_type() {
    let mut registry: Registry<u32> = Registry::new();
    registry.insert(b"10.0.0.1:5000".to_vec(), 1);
    let initial = Ok(PacketHeader { ty: PacketType::Initial, dcid: vec![] });
    let short = Ok(PacketHeader { ty: PacketType::Short, dcid: vec![] });
    let bad = Err(quiche::Error::InvalidPacket);
    assert!(matches!(sort_header(&registry, b"10.0.0.1:5000", &initial), Ingress::Known(0)));
    assert!(matches!(sort_header(&registry, b"10.0.0.1:5000", &short), Ingress::Known(0)));
    assert!(matches!(sort_header(&registry, b"10.0.0.2:5000", &initial), Ingress::New));
    assert!(matches!(sort_header(&registry, b"10.0.0.2:5000", &short), Ingress::Stray));
    assert!(matches!(
        sort_header(&registry, b"10.0.0.1:5000", &bad),
        Ingress::Malformed(quiche::Error::InvalidPacket)
    ));
    assert!(matches!(sort_packet(&registry, b"10.0.0.2:5000", &[0x40; 25]), Ingress::Stray));
    assert!(matches!(sort_packet(&registry, b"10.0.0.1:5000", &[0x40; 25]), Ingress::Known(0)));
    assert!(matches!(sort_packet(&registry, b"10.0.0.1:5000", &[]), Ingress::Malformed(_)));
}

#[test]
fn received_bytes_are_counted() {
    let mut client = Client::new("conn", 5);
    assert_eq!(client.first_seen, 5);
    client.touch(9);
    assert_eq!(client.first_seen, 5);
    assert_eq!(client.last_seen, 9);
    match client.count(2, ReadOutcome::Data { read: 102_399, fin: false }) {
        StreamReport::Data { stream_id, read, fin, total, milestone } => {
            assert_eq!((stream_id, read, total), (2, 102_399, 102_399));
            assert!(!fin);
            assert!(!milestone);
        }
        _ => panic!("data was read"),
    }
    match client.count(6, ReadOutcome::Data { read: 1, fin: true }) {
        StreamReport::Data { stream_id, read, fin, total, milestone } => {
            assert_eq!((stream_id, read, total), (6, 1, 102_400));
            assert!(fin);
            assert!(milestone);
        }
        _ => panic!("data was read"),
    }
    match client.count(6, ReadOutcome::Data { read: 1, fin: true }) {
        StreamReport::Data { milestone, .. } => assert!(!milestone),
        _ => panic!("data was read"),
    }
    assert!(matches!(
        client.count(6, ReadOutcome::Blocked),
        StreamReport::Idle { stream_id: 6 }
    ));
    assert!(matches!(
        client.count(6, ReadOutcome::Failed(quiche::Error::FinalSize)),
        StreamReport::Failed { stream_id: 6, error: quiche::Error::FinalSize }
    ));
    assert_eq!(client.bytes_received, 102_401);
    assert_eq!(client.conn, "conn");
}

#[test]
fn chunks_are_cut_to_what_was_read() {
    let buf = vec![1, 2, 3, 4];
    match take_chunk(ReadOutcome::Data { read: 3, fin: true }, buf.clone()) {
        ReadStep::Chunk { bytes, fin } => {
            assert_eq!(bytes, vec![1, 2, 3]);
            assert!(fin);
        }
        _ => panic!("data was read"),
    }
    assert!(matches!(take_chunk(ReadOutcome::Blocked, buf.clone()), ReadStep::Drained));
    assert!(matches!(
        take_chunk(ReadOutcome::Failed(quiche::Error::TlsFail), buf),
        ReadStep::Failed(quiche::Error::TlsFail)
    ));
}

#[test]
fn settings_of_the_bench() {
    let settings = bench_settings();
    assert_eq!(settings.max_idle_timeout, 30000);
    assert_eq!(settings.max_recv_udp_payload_size, 1452);
    assert_eq!(settings.max_send_udp_payload_size, 1452);
    assert_eq!(settings.initial_max_data, 100_000_000);
    assert_eq!(settings.initial_max_stream_data_bidi_local, 10_000_000);
    assert_eq!(settings.initial_max_stream_data_bidi_remote, 10_000_000);
    assert_eq!(settings.initial_max_stream_data_uni, 10_000_000);
    assert_eq!(settings.initial_max_streams_bidi, 0);
    assert_eq!(settings.initial_max_streams_uni, 1000);
    assert_eq!(settings.max_ack_delay, 1);
    assert!(!settings.hystart);
    assert_eq!(settings.max_pacing_rate, Some(0));
    assert!(!settings.verify_peer);
    assert_eq!(settings.congestion, CongestionControl::Bbr);
    assert_eq!(settings.datagrams, Some(DatagramQueues { recv: 1000, send: 1000 }));
    assert_eq!(&APPLICATION_PROTO, b"\x05myapp");
}

#[test]
fn settings_of_the_small_endpoints() {
    let echo = echo_client::settings();
    assert_eq!(echo.initial_max_streams_uni, 1000);
    assert_eq!(echo.initial_max_stream_data_bidi_remote, 1_000_000);
    let ping = ping_client::settings();
    assert_eq!(ping.max_recv_udp_payload_size, 65527);
    assert_eq!(ping.initial_max_streams_bidi, 100);
    let server = dcid_server::settings();
    assert!(server.disable_active_migration);
    assert_eq!(server.initial_max_stream_data_bidi_remote, 0);
    assert_eq!(&dcid_server::GREETING_PROTO, b"myapp");
}

#[test]
fn publishers_start_evenly_spread() {
    assert_eq!(publisher_delays(1), vec![0]);
    assert_eq!(publisher_delays(3), vec![0, 110_000, 220_000]);
    assert_eq!(publisher_delays(7)[6], 6 * 47_142);
    let crowd = publisher_delays(400_000);
    assert_eq!(crowd.len(), 400_000);
    assert_eq!(crowd[399_999], 0);
}

#[test]
fn clients_are_enrolled_once_their_packet_is_taken() {
    let mut registry: Registry<Client<&str>> = Registry::new();
    let refused = enroll(&mut registry, b"a".to_vec(), "x", 3, Err(quiche::Error::CryptoFail));
    assert_eq!(refused, Err(quiche::Error::CryptoFail));
    assert_eq!(registry.len(), 0);
    assert_eq!(enroll(&mut registry, b"a".to_vec(), "y", 4, Ok(1200)), Ok(1200));
    assert_eq!(registry.find(b"a"), Some(0));
    let client = registry.value(0);
    assert_eq!(client.conn, "y");
    assert_eq!((client.bytes_received, client.first_seen, client.last_seen), (0, 4, 4));
    let initial = Ok(PacketHeader { ty: PacketType::Initial, dcid: vec![] });
    assert!(matches!(sort_header(&registry, b"a", &initial), Ingress::Known(0)));
}

#[test]
fn packets_are_located_by_identifier() {
    let mut registry: Registry<u32> = Registry::new();
    registry.insert(vec![7; 20], 1);
    let known = Ok(PacketHeader { ty: PacketType::Short, dcid: vec![7; 20] });
    assert!(matches!(locate_header(&registry, known), Destination::Known(0)));
    let other = Ok(PacketHeader { ty: PacketType::Handshake, dcid: vec![7; 8] });
    match locate_header(&registry, other) {
        Destination::Unknown(dcid) => assert_eq!(dcid, vec![7; 8]),
        _ => panic!("the identifier is new"),
    }
    let bad = Err(quiche::Error::InvalidPacket);
    assert!(matches!(
        locate_header(&registry, bad),
        Destination::Malformed(quiche::Error::InvalidPacket)
    ));
    let mut packet = vec![0x40];
    packet.extend_from_slice(&[7; 24]);
    assert!(matches!(locate_packet(&registry, &packet), Destination::Known(0)));
    packet[20] = 8;
    match locate_packet(&registry, &packet) {
        Destination::Unknown(dcid) => assert_eq!(dcid, packet[1..21].to_vec()),
        _ => panic!("the identifier is new"),
    }
    assert!(matches!(locate_packet(&registry, &packet[..20]), Destination::Malformed(_)));
}

#[test]
fn configuration_errors_tell_where_they_come_from() {
    let created = Err(quiche::Error::TlsFail);
    let result = complete_config(created, &bench_settings(), &APPLICATION_PROTO);
    assert!(matches!(result, Err(SetupError::Context(quiche::Error::TlsFail))));
    let files = Credentials { cert_chain: "a".to_string(), priv_key: "b".to_string() };
    let result = with_credentials(Err(SetupError::Protocol(quiche::Error::TlsFail)), Some(files));
    assert!(matches!(result, Err(SetupError::Protocol(quiche::Error::TlsFail))));
}
