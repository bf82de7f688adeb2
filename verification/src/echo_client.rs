//! A client that answers the text that its server greets it with.

use vstd::prelude::*;
use vstd::slice::slice_subrange;
use vstd::utf8::{decode_utf8, encode_utf8, valid_utf8};

use crate::handshake::{
    conn_origin, dial_as, is_dialled, lemma_settings_are_usable, DialError, OpenError,
};
use crate::packet::{random_conn_id, NoRandomness, MAX_CONN_ID_LEN};
use crate::quic_config::{
    build_config, config_protocols, config_values, CongestionControl, SetupError,
    TransportSettings, APPLICATION_PROTO,
};
use crate::transport::{
    conn_established, conn_read, conn_sent, stream_recv, stream_send, ReadOutcome, SendOutcome,
};

verus! {

pub const MAX_DATAGRAM_SIZE: usize = 1350;

/// The stream that the client and its server talk on.
pub const STREAM_ID: u64 = 0;

/// How many bytes are read from the stream at a time.
pub const READ_SIZE: usize = 1024;

/// Milliseconds to wait where the connection does not tell.
pub const DEFAULT_WAIT_MS: u64 = 50;

/// The settings of the client.
#[verifier::allow_in_spec]
pub fn settings() -> TransportSettings
    returns
        (TransportSettings {
            max_idle_timeout: 5000,
            max_recv_udp_payload_size: MAX_DATAGRAM_SIZE,
            max_send_udp_payload_size: MAX_DATAGRAM_SIZE,
            initial_max_data: 10_000_000,
            initial_max_stream_data_bidi_local: 1_000_000,
            initial_max_stream_data_bidi_remote: 1_000_000,
            initial_max_stream_data_uni: 0,
            initial_max_streams_bidi: 1000,
            initial_max_streams_uni: 1000,
            max_ack_delay: 25,
            disable_active_migration: false,
            hystart: true,
            max_pacing_rate: None,
            verify_peer: false,
            congestion: CongestionControl::Cubic,
            datagrams: None,
        }),
{
    TransportSettings {
        max_idle_timeout: 5000,
        max_recv_udp_payload_size: MAX_DATAGRAM_SIZE,
        max_send_udp_payload_size: MAX_DATAGRAM_SIZE,
        initial_max_data: 10_000_000,
        initial_max_stream_data_bidi_local: 1_000_000,
        initial_max_stream_data_bidi_remote: 1_000_000,
        initial_max_stream_data_uni: 0,
        initial_max_streams_bidi: 1000,
        initial_max_streams_uni: 1000,
        max_ack_delay: 25,
        disable_active_migration: false,
        hystart: true,
        max_pacing_rate: None,
        verify_peer: false,
        congestion: CongestionControl::Cubic,
        datagrams: None,
    }
}

/// The configuration of the client.
pub fn configure() -> (result: Result<quiche::Config, SetupError>)
    ensures
        result matches Ok(config) ==> {
            &&& config_values(config) == settings().values()
            &&& config_protocols(config) == seq![APPLICATION_PROTO@]
        },
        exists|given: &TransportSettings, proto: &[u8]|
            {
                &&& #[trigger] call_ensures(build_config, (given, proto), result)
                &&& *given == settings()
                &&& proto@ == APPLICATION_PROTO@
            },
{
    let proto: [u8; 6] = APPLICATION_PROTO;
    let build = build_config;
    build(&settings(), proto.as_slice())
}

/// Makes the client's connection, under a random identifier.
pub fn dial(info: &quiche::RecvInfo) -> (result: Result<quiche::Connection, DialError>)
    ensures
        result matches Ok(conn) ==> {
            let id = conn_origin(conn).source_id;
            &&& is_dialled(conn, settings(), id, *info)
            &&& id.len() == MAX_CONN_ID_LEN
        },
        exists|built: Result<quiche::Config, SetupError>, drawn: Result<Vec<u8>, NoRandomness>|
            {
                &&& #[trigger] call_ensures(configure, (), built)
                &&& #[trigger] call_ensures(random_conn_id, (), drawn)
                &&& built matches Err(error) ==> result == Err::<quiche::Connection, _>(
                    DialError::Setup(error),
                )
                &&& built is Ok ==> !(result matches Err(DialError::Setup(_)))
                &&& built is Ok ==> (drawn is Err <==> (result matches Err(
                    DialError::Open(OpenError::NoRandomness),
                )))
                &&& result matches Ok(conn) ==> conn_origin(conn).source_id == drawn->Ok_0@
                &&& call_ensures(dial_as, (built, drawn, info), result)
            },
{
    proof {
        lemma_settings_are_usable();
    }
    let configure = configure;
    let draw = random_conn_id;
    let make = dial_as;
    make(configure(), draw(), info)
}

/// How many milliseconds to wait for a packet: the whole milliseconds of the
/// connection's timeout, in 64 bits, or the default.
pub fn poll_timeout_ms(timeout_ns: Option<u128>) -> (ms: u64)
    ensures
        ms == (match timeout_ns {
            Some(ns) => (ns / 1_000_000) % 0x1_0000_0000_0000_0000,
            None => DEFAULT_WAIT_MS as u128,
        }),
{
    match timeout_ns {
        Some(ns) => ((ns / 1_000_000) % 0x1_0000_0000_0000_0000) as u64,
        None => DEFAULT_WAIT_MS,
    }
}

/// Calls `std::str::from_utf8`: text comes out of bytes that are valid UTF-8,
/// and of no others, and it is the text that they encode.
#[verifier::external_body]
fn text_of(bytes: &[u8]) -> (text: Option<&str>)
    ensures
        text is Some <==> valid_utf8(bytes@),
        text matches Some(s) ==> s@ == decode_utf8(bytes@),
{
    std::str::from_utf8(bytes).ok()
}

/// What the client makes of what it read.
pub enum Heard {
    /// Nothing that wants an answer.
    Nothing,
    /// A text; `fin` tells whether it was the last.
    Text { text: String, fin: bool },
    /// Bytes that are no text. The client stops.
    NoText,
    Failed(quiche::Error),
}

/// What the client makes of the answer to reading the stream, and of the bytes
/// that were read.
pub open spec fn heard(outcome: ReadOutcome, bytes: Seq<u8>, result: Heard) -> bool {
    match outcome {
        ReadOutcome::Data { read, fin } => if read == 0 {
            result is Nothing
        } else if valid_utf8(bytes) {
            result matches Heard::Text { text, fin: last } && text@ == decode_utf8(bytes) && last
                == fin
        } else {
            result is NoText
        },
        ReadOutcome::Blocked => result is Nothing,
        ReadOutcome::Failed(error) => result == Heard::Failed(error),
    }
}

/// Judges the answer to reading the stream into `buf`.
pub fn hear(outcome: ReadOutcome, buf: &[u8]) -> (result: Heard)
    requires
        outcome.answers(buf@.len()),
    ensures
        heard(outcome, buf@.take(outcome.len()), result),
{
    match outcome {
        ReadOutcome::Data { read, fin } => {
            if read == 0 {
                Heard::Nothing
            } else {
                let bytes = slice_subrange(buf, 0, read);
                assert(bytes@ =~= buf@.take(outcome.len()));
                match text_of(bytes) {
                    Some(text) => Heard::Text { text: text.to_owned(), fin },
                    None => Heard::NoText,
                }
            }
        },
        ReadOutcome::Blocked => Heard::Nothing,
        ReadOutcome::Failed(error) => Heard::Failed(error),
    }
}

/// Reads the stream.
pub fn listen(conn: &mut quiche::Connection) -> (result: Heard)
    ensures
        heard(
            conn_read(*old(conn), STREAM_ID, READ_SIZE as nat).0,
            conn_read(*old(conn), STREAM_ID, READ_SIZE as nat).1,
            result,
        ),
        *final(conn) == conn_read(*old(conn), STREAM_ID, READ_SIZE as nat).2,
{
    let mut buf: Vec<u8> = vec![0; READ_SIZE];
    let outcome = stream_recv(conn, STREAM_ID, &mut buf);
    assert(outcome is Data ==> buf@.take(outcome.len()) =~= conn_read(
        *old(conn),
        STREAM_ID,
        READ_SIZE as nat,
    ).1);
    hear(outcome, buf.as_slice())
}

/// Answers, and ends the stream.
pub fn answer(conn: &mut quiche::Connection) -> (outcome: SendOutcome)
    ensures
        (outcome, *final(conn)) == conn_sent(
            *old(conn),
            STREAM_ID,
            encode_utf8("hello from client"@),
            true,
        ),
{
    stream_send(conn, STREAM_ID, "hello from client".as_bytes(), true)
}

/// What came of a look at the stream.
pub enum Exchange {
    /// The connection is not established yet.
    NotYet,
    /// There was nothing to answer.
    Unanswered(Heard),
    /// A text was read and answered.
    Answered { text: String, fin: bool, outcome: SendOutcome },
}

/// What a look at the stream comes to: only a text, on an established
/// connection, is answered. `after` is the connection afterwards.
pub open spec fn converses(
    conn: quiche::Connection,
    exchange: Exchange,
    after: quiche::Connection,
) -> bool {
    let (outcome, bytes, next) = conn_read(conn, STREAM_ID, READ_SIZE as nat);
    match exchange {
        Exchange::NotYet => !conn_established(conn) && after == conn,
        Exchange::Unanswered(result) => {
            &&& conn_established(conn)
            &&& !(result is Text)
            &&& heard(outcome, bytes, result)
            &&& after == next
        },
        Exchange::Answered { text, fin, outcome: sent } => {
            &&& conn_established(conn)
            &&& heard(outcome, bytes, Heard::Text { text, fin })
            &&& (sent, after) == conn_sent(
                next,
                STREAM_ID,
                encode_utf8("hello from client"@),
                true,
            )
        },
    }
}

/// Reads the stream of an established connection, and answers a text.
pub fn converse(conn: &mut quiche::Connection) -> (exchange: Exchange)
    ensures
        converses(*old(conn), exchange, *final(conn)),
{
    if !conn.is_established() {
        return Exchange::NotYet;
    }
    match listen(conn) {
        Heard::Text { text, fin } => {
            let outcome = answer(conn);
            Exchange::Answered { text, fin, outcome }
        },
        other => Exchange::Unanswered(other),
    }
}

} // verus!
