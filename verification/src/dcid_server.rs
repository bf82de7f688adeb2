//! Two small servers: one that keeps a connection per connection identifier and
//! prints what it reads, and one that greets every client.

use vstd::prelude::*;
use vstd::utf8::encode_utf8;

use crate::packet::{
    header_fields, header_of, read_header, PacketHeader, PacketType, MAX_CONN_ID_LEN,
};
use crate::quic_config::{
    build_config, comes_of_building, with_credentials, CongestionControl, Credentials, QuicSetup,
    SetupError, TransportSettings, APPLICATION_PROTO,
};
use crate::registry::Registry;
use crate::transport::{
    conn_established, conn_read, conn_readable, conn_sent, readable, stream_recv, stream_send,
    ReadOutcome, SendOutcome,
};

verus! {

pub const MAX_DATAGRAM_SIZE: usize = 1350;

/// How many bytes are read from a stream at a time.
pub const READ_SIZE: usize = 4096;

/// The stream that clients are greeted on.
pub const GREETING_STREAM_ID: u64 = 0;

/// The application protocol of the greeting server: `myapp`.
pub const GREETING_PROTO: [u8; 5] = [109, 121, 97, 112, 112];

/// The settings of both servers.
#[verifier::allow_in_spec]
pub fn settings() -> TransportSettings
    returns
        (TransportSettings {
            max_idle_timeout: 5000,
            max_recv_udp_payload_size: MAX_DATAGRAM_SIZE,
            max_send_udp_payload_size: MAX_DATAGRAM_SIZE,
            initial_max_data: 10_000_000,
            initial_max_stream_data_bidi_local: 1_000_000,
            initial_max_stream_data_bidi_remote: 0,
            initial_max_stream_data_uni: 0,
            initial_max_streams_bidi: 100,
            initial_max_streams_uni: 0,
            max_ack_delay: 25,
            disable_active_migration: true,
            hystart: true,
            max_pacing_rate: None,
            verify_peer: false,
            congestion: CongestionControl::Cubic,
            datagrams: None,
        }),
{
    TransportSettings {
        max_idle_timeout: 5000,
        max_recv_udp_payload_size: MAX_DATAGRAM_SIZE,
        max_send_udp_payload_size: MAX_DATAGRAM_SIZE,
        initial_max_data: 10_000_000,
        initial_max_stream_data_bidi_local: 1_000_000,
        initial_max_stream_data_bidi_remote: 0,
        initial_max_stream_data_uni: 0,
        initial_max_streams_bidi: 100,
        initial_max_streams_uni: 0,
        max_ack_delay: 25,
        disable_active_migration: true,
        hystart: true,
        max_pacing_rate: None,
        verify_peer: false,
        congestion: CongestionControl::Cubic,
        datagrams: None,
    }
}

/// The configuration of the server that reads.
pub fn configure() -> (result: Result<QuicSetup, SetupError>)
    ensures
        result matches Ok(setup) ==> {
            &&& setup.holds(settings(), APPLICATION_PROTO@)
            &&& setup.asks_for("cert.crt"@, "cert.key"@)
        },
        comes_of_building(result, settings(), APPLICATION_PROTO@),
{
    let proto: [u8; 6] = APPLICATION_PROTO;
    let files = Credentials { cert_chain: "cert.crt".to_owned(), priv_key: "cert.key".to_owned() };
    let build = build_config;
    let built = build(&settings(), proto.as_slice());
    with_credentials(built, Some(files))
}

/// The configuration of the server that greets.
pub fn configure_greeting() -> (result: Result<QuicSetup, SetupError>)
    ensures
        result matches Ok(setup) ==> {
            &&& setup.holds(settings(), GREETING_PROTO@)
            &&& setup.asks_for("cert.pem"@, "key.pem"@)
        },
        comes_of_building(result, settings(), GREETING_PROTO@),
{
    let proto: [u8; 5] = GREETING_PROTO;
    let files = Credentials { cert_chain: "cert.pem".to_owned(), priv_key: "key.pem".to_owned() };
    let build = build_config;
    let built = build(&settings(), proto.as_slice());
    with_credentials(built, Some(files))
}

/// Which connection an incoming packet is for.
#[derive(Debug)]
pub enum Destination {
    /// The packet has no header that can be read; it is skipped.
    Malformed(quiche::Error),
    /// It is for the connection at this place.
    Known(usize),
    /// It is for a connection that does not exist yet, with this identifier.
    Unknown(Vec<u8>),
}

/// Which connection a packet is for whose header has, or lacks, this
/// identifier.
pub open spec fn is_for<T>(
    registry: Registry<T>,
    dcid: Option<Seq<u8>>,
    destination: Destination,
) -> bool {
    match dcid {
        None => destination is Malformed,
        Some(dcid) => if registry.map().contains_key(dcid) {
            destination matches Destination::Known(i) && i < registry.keys().len()
                && registry.keys()[i as int] == dcid
        } else {
            destination matches Destination::Unknown(id) && id@ == dcid
        },
    }
}

/// The identifier in a header, where there is a header.
pub open spec fn dcid_of(header: Option<(PacketType, Seq<u8>)>) -> Option<Seq<u8>> {
    match header {
        Some((_, dcid)) => Some(dcid),
        None => None,
    }
}

/// Finds the connection of a packet by its header.
pub fn locate_header<T>(
    registry: &Registry<T>,
    header: Result<PacketHeader, quiche::Error>,
) -> (destination: Destination)
    requires
        registry.wf(),
    ensures
        header matches Ok(h) ==> is_for(*registry, Some(h.dcid@), destination),
        header matches Err(error) ==> destination == Destination::Malformed(error),
{
    match header {
        Err(error) => Destination::Malformed(error),
        Ok(header) => match registry.find(header.dcid.as_slice()) {
            Some(i) => Destination::Known(i),
            None => Destination::Unknown(header.dcid),
        },
    }
}

/// Finds the connection of an incoming packet.
pub fn locate_packet<T>(registry: &Registry<T>, packet: &[u8]) -> (destination: Destination)
    requires
        registry.wf(),
    ensures
        is_for(*registry, dcid_of(header_fields(packet@, MAX_CONN_ID_LEN as nat)), destination),
        header_of(packet@, MAX_CONN_ID_LEN as nat) matches Err(error) ==> destination
            == Destination::Malformed(error),
{
    locate_header(registry, read_header(packet))
}

/// Greets the client of an established connection, and ends the stream.
pub fn greet(conn: &mut quiche::Connection) -> (outcome: Option<SendOutcome>)
    ensures
        conn_established(*old(conn)) ==> {
            let (answer, after) = conn_sent(
                *old(conn),
                GREETING_STREAM_ID,
                encode_utf8("hello from server"@),
                true,
            );
            outcome == Some(answer) && *final(conn) == after
        },
        !conn_established(*old(conn)) ==> outcome is None && *final(conn) == *old(conn),
{
    if conn.is_established() {
        Some(stream_send(conn, GREETING_STREAM_ID, "hello from server".as_bytes(), true))
    } else {
        None
    }
}

/// The streams of an established connection that have data.
pub fn streams_to_read(conn: &quiche::Connection) -> (streams: Vec<u64>)
    ensures
        streams@ == if conn_established(*conn) {
            conn_readable(*conn)
        } else {
            Seq::empty()
        },
{
    if conn.is_established() {
        readable(conn)
    } else {
        Vec::new()
    }
}

/// What came of reading on in a stream.
pub enum ReadStep {
    /// Some bytes; there may be more.
    Chunk { bytes: Vec<u8>, fin: bool },
    /// There is no more now.
    Drained,
    Failed(quiche::Error),
}

/// What the answer to reading a stream, and the bytes that were read, come to.
pub open spec fn reads(outcome: ReadOutcome, bytes: Seq<u8>, step: ReadStep) -> bool {
    match outcome {
        ReadOutcome::Data { read, fin } => step matches ReadStep::Chunk { bytes: chunk, fin: last }
            && chunk@ == bytes && last == fin,
        ReadOutcome::Blocked => step is Drained,
        ReadOutcome::Failed(error) => step == ReadStep::Failed(error),
    }
}

/// Takes in the answer to reading a stream into `buf`.
pub fn take_chunk(outcome: ReadOutcome, mut buf: Vec<u8>) -> (step: ReadStep)
    requires
        outcome.answers(buf@.len()),
    ensures
        reads(outcome, buf@.take(outcome.len()), step),
{
    match outcome {
        ReadOutcome::Data { read, fin } => {
            buf.truncate(read);
            ReadStep::Chunk { bytes: buf, fin }
        },
        ReadOutcome::Blocked => ReadStep::Drained,
        ReadOutcome::Failed(error) => ReadStep::Failed(error),
    }
}

/// Reads on in a stream.
pub fn read_chunk(conn: &mut quiche::Connection, stream_id: u64) -> (step: ReadStep)
    ensures
        reads(
            conn_read(*old(conn), stream_id, READ_SIZE as nat).0,
            conn_read(*old(conn), stream_id, READ_SIZE as nat).1,
            step,
        ),
        *final(conn) == conn_read(*old(conn), stream_id, READ_SIZE as nat).2,
{
    let mut buf: Vec<u8> = vec![0; READ_SIZE];
    let outcome = stream_recv(conn, stream_id, &mut buf);
    assert(outcome is Data ==> buf@.take(outcome.len()) =~= conn_read(
        *old(conn),
        stream_id,
        READ_SIZE as nat,
    ).1);
    take_chunk(outcome, buf)
}

} // verus!
