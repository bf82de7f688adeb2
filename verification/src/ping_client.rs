//! A client that sends a few pings and leaves.

use vstd::prelude::*;
use vstd::utf8::encode_utf8;

use crate::handshake::{dial_as, is_dialled, lemma_settings_are_usable, DialError, OpenError};
use crate::packet::NoRandomness;
use crate::quic_config::{
    build_config, config_protocols, config_values, CongestionControl, SetupError,
    TransportSettings, APPLICATION_PROTO,
};
use crate::transport::{conn_sent, stream_send, SendOutcome};

verus! {

/// The stream that pings are sent on.
pub const STREAM_ID: u64 = 0;

/// How many pings are sent.
pub const PINGS: u32 = 10;

/// Nanoseconds in front of each ping.
pub const PING_INTERVAL_NS: u128 = 100_000_000;

/// Nanoseconds to wait where the connection does not tell.
pub const DEFAULT_WAIT_NS: u128 = 50_000_000;

/// The settings of the client.
#[verifier::allow_in_spec]
pub fn settings() -> TransportSettings
    returns
        (TransportSettings {
            max_idle_timeout: 5000,
            max_recv_udp_payload_size: 65527,
            max_send_udp_payload_size: 1200,
            initial_max_data: 10_000_000,
            initial_max_stream_data_bidi_local: 1_000_000,
            initial_max_stream_data_bidi_remote: 0,
            initial_max_stream_data_uni: 0,
            initial_max_streams_bidi: 100,
            initial_max_streams_uni: 0,
            max_ack_delay: 25,
            disable_active_migration: false,
            hystart: true,
            max_pacing_rate: None,
            verify_peer: false,
            congestion: CongestionControl::Cubic,
            datagrams: None,
        }),
{
    TransportSettings {
        max_idle_timeout: 5000,
        max_recv_udp_payload_size: 65527,
        max_send_udp_payload_size: 1200,
        initial_max_data: 10_000_000,
        initial_max_stream_data_bidi_local: 1_000_000,
        initial_max_stream_data_bidi_remote: 0,
        initial_max_stream_data_uni: 0,
        initial_max_streams_bidi: 100,
        initial_max_streams_uni: 0,
        max_ack_delay: 25,
        disable_active_migration: false,
        hystart: true,
        max_pacing_rate: None,
        verify_peer: false,
        congestion: CongestionControl::Cubic,
        datagrams: None,
    }
}

/// The configuration of the client.
pub fn configure() -> (result: Result<quiche::Config, SetupError>)
    ensures
        result matches Ok(config) ==> {
            &&& config_values(config) == settings().values()
            &&& config_protocols(config) == seq![APPLICATION_PROTO@]
        },
        exists|given: &TransportSettings, proto: &[u8]|
            {
                &&& #[trigger] call_ensures(build_config, (given, proto), result)
                &&& *given == settings()
                &&& proto@ == APPLICATION_PROTO@
            },
{
    let proto: [u8; 6] = APPLICATION_PROTO;
    let build = build_config;
    build(&settings(), proto.as_slice())
}

/// How many bytes the identifier of the client's connection has.
pub const SOURCE_ID_LEN: usize = 16;

/// Each of the bytes of that identifier.
pub const SOURCE_ID_BYTE: u8 = 0xba;

/// The identifier of every connection of the client.
pub open spec fn source_id() -> Seq<u8> {
    Seq::new(SOURCE_ID_LEN as nat, |i: int| SOURCE_ID_BYTE)
}

/// Makes the client's connection.
pub fn dial(info: &quiche::RecvInfo) -> (result: Result<quiche::Connection, DialError>)
    ensures
        result matches Ok(conn) ==> is_dialled(conn, settings(), source_id(), *info),
        !(result matches Err(DialError::Open(OpenError::NoRandomness))),
        exists|built: Result<quiche::Config, SetupError>, id: Vec<u8>|
            {
                &&& call_ensures(configure, (), built)
                &&& id@ == source_id()
                &&& #[trigger] call_ensures(
                    dial_as,
                    (built, Ok::<Vec<u8>, NoRandomness>(id), info),
                    result,
                )
            },
{
    proof {
        lemma_settings_are_usable();
    }
    let scid: Vec<u8> = vec![SOURCE_ID_BYTE; SOURCE_ID_LEN];
    assert(scid@ =~= source_id());
    let configure = configure;
    let make = dial_as;
    make(configure(), Ok(scid), info)
}

/// How many nanoseconds to sleep while there is no connection yet: as long as
/// the connection can be left alone, or the default.
pub fn wait_ns(timeout_ns: Option<u128>) -> (ns: u128)
    ensures
        ns == (match timeout_ns {
            Some(ns) => ns,
            None => DEFAULT_WAIT_NS,
        }),
{
    match timeout_ns {
        Some(ns) => ns,
        None => DEFAULT_WAIT_NS,
    }
}

/// What is to be done after a ping.
#[derive(Clone, Copy, Debug)]
pub enum PingStep {
    /// Wait, then send the next one.
    Next,
    /// All were sent. Flush and leave.
    Done,
    /// The stream did not take it. Give up.
    Failed(SendOutcome),
}

/// Counts pings.
pub struct Pinger {
    sent: u32,
}

impl Pinger {
    /// How many pings were sent.
    pub closed spec fn spec_sent(self) -> u32 {
        self.sent
    }

    pub fn new() -> (pinger: Pinger)
        ensures
            pinger.spec_sent() == 0,
    {
        Pinger { sent: 0 }
    }

    /// Counts a ping, where it was taken.
    pub fn count(&mut self, outcome: SendOutcome) -> (step: PingStep)
        requires
            old(self).spec_sent() < PINGS,
        ensures
            outcome is Written ==> final(self).spec_sent() == old(self).spec_sent() + 1 && step
                == if final(self).spec_sent() == PINGS {
                PingStep::Done
            } else {
                PingStep::Next
            },
            !(outcome is Written) ==> final(self).spec_sent() == old(self).spec_sent() && step
                == PingStep::Failed(outcome),
    {
        match outcome {
            SendOutcome::Written(_) => {
                self.sent = self.sent + 1;
                if self.sent == PINGS {
                    PingStep::Done
                } else {
                    PingStep::Next
                }
            },
            _ => PingStep::Failed(outcome),
        }
    }

    /// Sends a ping.
    pub fn ping(&mut self, conn: &mut quiche::Connection) -> (step: PingStep)
        requires
            old(self).spec_sent() < PINGS,
        ensures
            ({
                let (outcome, after) = conn_sent(
                    *old(conn),
                    STREAM_ID,
                    encode_utf8("ping\n"@),
                    false,
                );
                &&& *final(conn) == after
                &&& outcome is Written ==> final(self).spec_sent() == old(self).spec_sent() + 1
                    && step == if final(self).spec_sent() == PINGS {
                    PingStep::Done
                } else {
                    PingStep::Next
                }
                &&& !(outcome is Written) ==> final(self).spec_sent() == old(self).spec_sent()
                    && step == PingStep::Failed(outcome)
            }),
    {
        let outcome = stream_send(conn, STREAM_ID, "ping\n".as_bytes(), false);
        self.count(outcome)
    }
}

} // verus!
