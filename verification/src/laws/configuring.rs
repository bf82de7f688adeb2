//! Configurations, and connections made with them.

use vstd::prelude::*;

use crate::dcid_server;
use crate::echo_client;
use crate::handshake::{
    accept, accepts, conn_origin, connect, connects, dial, dial_as, open, open_as, opened,
    DialError, OpenError,
};
use crate::packet::{random_conn_id, NoRandomness};
use crate::ping_client;
use crate::quic_client::QuicClient;
use crate::quic_config::{
    apply_settings, build_config, complete_config, config_protocols, config_values,
    configure_client, configure_server, create_config, creates, default_values, takes,
    with_credentials, CongestionControl, Credentials, QuicSetup, Setting, SetupError,
    TransportSettings,
};
use crate::transport::{conn_closed, conn_established, conn_readable, conn_wakes};

verus! {

/// A parameter has a value exactly where it is not the limit on pacing or the
/// size of DATAGRAM frames, or else that is given.
pub open spec fn has_all(values: Map<Setting, int>, paced: bool, datagrams: bool) -> bool {
    forall|setting: Setting|
        #[trigger] values.contains_key(setting) <==> {
            &&& setting is MaxPacingRate ==> paced
            &&& setting is DatagramFrameSize ==> datagrams
        }
}

/// Each parameter is what the settings say of it, and of no other.
pub open spec fn mirrors(values: Map<Setting, int>, settings: TransportSettings) -> bool {
    &&& has_all(values, settings.max_pacing_rate is Some, settings.datagrams is Some)
    &&& follows(values, settings)
    &&& settings.datagrams is None ==> {
        &&& values[Setting::DatagramRecvQueue] == 0
        &&& values[Setting::DatagramSendQueue] == 0
    }
}

/// The parameters that the settings name are as they name them.
pub open spec fn follows(values: Map<Setting, int>, settings: TransportSettings) -> bool {
    &&& values[Setting::MaxIdleTimeout] == settings.max_idle_timeout
    &&& values[Setting::MaxRecvUdpPayloadSize] == settings.max_recv_udp_payload_size
    &&& settings.max_send_udp_payload_size >= 1200 ==> values[Setting::MaxSendUdpPayloadSize]
        == settings.max_send_udp_payload_size
    &&& settings.max_send_udp_payload_size < 1200 ==> values[Setting::MaxSendUdpPayloadSize] == 1200
    &&& values[Setting::InitialMaxData] == settings.initial_max_data
    &&& values[Setting::InitialMaxStreamDataBidiLocal]
        == settings.initial_max_stream_data_bidi_local
    &&& values[Setting::InitialMaxStreamDataBidiRemote]
        == settings.initial_max_stream_data_bidi_remote
    &&& values[Setting::InitialMaxStreamDataUni] == settings.initial_max_stream_data_uni
    &&& values[Setting::InitialMaxStreamsBidi] == settings.initial_max_streams_bidi
    &&& values[Setting::InitialMaxStreamsUni] == settings.initial_max_streams_uni
    &&& values[Setting::MaxAckDelay] == settings.max_ack_delay
    &&& settings.disable_active_migration <==> values[Setting::DisableActiveMigration] == 1
    &&& !settings.disable_active_migration <==> values[Setting::DisableActiveMigration] == 0
    &&& settings.hystart <==> values[Setting::Hystart] == 1
    &&& !settings.hystart <==> values[Setting::Hystart] == 0
    &&& settings.verify_peer <==> values[Setting::VerifyPeer] == 1
    &&& !settings.verify_peer <==> values[Setting::VerifyPeer] == 0
    &&& settings.congestion == CongestionControl::Cubic <==> values[Setting::Congestion] == 1
    &&& settings.congestion == CongestionControl::Bbr <==> values[Setting::Congestion] == 2
    &&& settings.max_pacing_rate matches Some(rate) ==> values[Setting::MaxPacingRate] == rate
    &&& settings.datagrams matches Some(queues) ==> {
        &&& values[Setting::DatagramFrameSize] == 65536
        &&& values[Setting::DatagramRecvQueue] == queues.recv
        &&& values[Setting::DatagramSendQueue] == queues.send
    }
}

/// The values that the settings come to are theirs, one by one.
pub proof fn lemma_values_mirror(settings: TransportSettings)
    ensures
        mirrors(settings.values(), settings),
{
    assert forall|setting: Setting|
        #[trigger] settings.values().contains_key(setting) <==> {
            &&& setting is MaxPacingRate ==> settings.max_pacing_rate is Some
            &&& setting is DatagramFrameSize ==> settings.datagrams is Some
        } by {
        match setting {
            Setting::MaxIdleTimeout => {},
            Setting::MaxRecvUdpPayloadSize => {},
            Setting::MaxSendUdpPayloadSize => {},
            Setting::InitialMaxData => {},
            Setting::InitialMaxStreamDataBidiLocal => {},
            Setting::InitialMaxStreamDataBidiRemote => {},
            Setting::InitialMaxStreamDataUni => {},
            Setting::InitialMaxStreamsBidi => {},
            Setting::InitialMaxStreamsUni => {},
            Setting::MaxAckDelay => {},
            Setting::DisableActiveMigration => {},
            Setting::Hystart => {},
            Setting::MaxPacingRate => {},
            Setting::VerifyPeer => {},
            Setting::Congestion => {},
            Setting::DatagramFrameSize => {},
            Setting::DatagramRecvQueue => {},
            Setting::DatagramSendQueue => {},
        }
    }
}

/// A configuration that comes out of building is the settings', and negotiates
/// the one protocol that it was given.
pub proof fn lemma_build_config(
    settings: &TransportSettings,
    proto: &[u8],
    result: Result<quiche::Config, SetupError>,
)
    requires
        call_ensures(build_config, (settings, proto), result),
    ensures
        result matches Ok(config) ==> {
            &&& mirrors(config_values(config), *settings)
            &&& config_protocols(config).len() == 1
            &&& config_protocols(config)[0] == proto@
        },
{
    lemma_values_mirror(*settings);
}

/// A configuration comes out of building exactly where one can be created and
/// takes the protocol; otherwise the error is the one that was met.
pub proof fn lemma_building_succeeds(
    settings: &TransportSettings,
    proto: &[u8],
    result: Result<quiche::Config, SetupError>,
)
    requires
        call_ensures(build_config, (settings, proto), result),
    ensures
        exists|created: Result<quiche::Config, quiche::Error>|
            {
                &&& #[trigger] creates(created)
                &&& created matches Err(error) ==> result == Err::<quiche::Config, _>(
                    SetupError::Context(error),
                )
                &&& created matches Ok(config) ==> exists|
                    c: &mut quiche::Config,
                    taken: Result<(), quiche::Error>,
                |
                    {
                        &&& #[trigger] takes(c, proto, taken)
                        &&& *c == config
                        &&& taken is Ok <==> result is Ok
                        &&& taken matches Err(error) ==> result == Err::<quiche::Config, _>(
                            SetupError::Protocol(error),
                        )
                    }
            },
{
}

/// Settings are applied exactly where the protocol was taken, all of them,
/// whatever the configuration held. What they do not speak of stays, and so does
/// the protocol.
pub proof fn lemma_apply_settings(
    config: quiche::Config,
    taken: Result<(), quiche::Error>,
    settings: &TransportSettings,
    result: Result<quiche::Config, SetupError>,
)
    requires
        call_ensures(apply_settings, (config, taken, settings), result),
    ensures
        taken is Ok <==> result is Ok,
        taken matches Err(error) ==> result == Err::<quiche::Config, _>(
            SetupError::Protocol(error),
        ),
        result matches Ok(settled) ==> {
            &&& follows(config_values(settled), *settings)
            &&& config_protocols(settled) == config_protocols(config)
            &&& config_values(config) == default_values() ==> mirrors(
                config_values(settled),
                *settings,
            )
            &&& settings.max_pacing_rate is None ==> config_values(settled)[Setting::MaxPacingRate]
                == config_values(config)[Setting::MaxPacingRate]
            &&& settings.datagrams is None ==> config_values(settled)[Setting::DatagramRecvQueue]
                == config_values(config)[Setting::DatagramRecvQueue]
                && config_values(settled)[Setting::DatagramSendQueue] == config_values(
                config,
            )[Setting::DatagramSendQueue]
        },
{
    lemma_values_mirror(*settings);
}

/// There is no configuration without a fresh one to start from, and the error
/// tells which step failed.
pub proof fn lemma_complete_config(
    created: Result<quiche::Config, quiche::Error>,
    settings: &TransportSettings,
    proto: &[u8],
    result: Result<quiche::Config, SetupError>,
)
    requires
        call_ensures(complete_config, (created, settings, proto), result),
    ensures
        created matches Err(error) ==> result == Err::<quiche::Config, _>(
            SetupError::Context(error),
        ),
        created is Ok && result is Err ==> result->Err_0 is Protocol,
        result matches Ok(config) ==> config_protocols(config) == seq![proto@] && (config_values(
            created->Ok_0,
        ) == default_values() ==> mirrors(config_values(config), *settings)),
{
    lemma_values_mirror(*settings);
}

/// The files are put beside the configuration, which stays as it is.
pub proof fn lemma_with_credentials(
    built: Result<quiche::Config, SetupError>,
    credentials: Option<Credentials>,
    result: Result<QuicSetup, SetupError>,
)
    requires
        call_ensures(with_credentials, (built, credentials), result),
    ensures
        built is Ok <==> result is Ok,
        built matches Ok(config) ==> result->Ok_0.config == config && result->Ok_0.credentials
            == credentials,
        built matches Err(error) ==> result->Err_0 == error,
{
}

/// `myapp`, behind its length.
pub open spec fn bench_proto() -> Seq<u8> {
    seq![5u8, 109u8, 121u8, 97u8, 112u8, 112u8]
}

/// The parameters of both ends of the bench.
pub open spec fn is_bench(values: Map<Setting, int>) -> bool {
    &&& has_all(values, true, true)
    &&& values[Setting::MaxIdleTimeout] == 30_000
    &&& values[Setting::MaxRecvUdpPayloadSize] == 1452
    &&& values[Setting::MaxSendUdpPayloadSize] == 1452
    &&& values[Setting::InitialMaxData] == 100_000_000
    &&& values[Setting::InitialMaxStreamDataBidiLocal] == 10_000_000
    &&& values[Setting::InitialMaxStreamDataBidiRemote] == 10_000_000
    &&& values[Setting::InitialMaxStreamDataUni] == 10_000_000
    &&& values[Setting::InitialMaxStreamsBidi] == 0
    &&& values[Setting::InitialMaxStreamsUni] == 1000
    &&& values[Setting::MaxAckDelay] == 1
    &&& values[Setting::DisableActiveMigration] == 0
    &&& values[Setting::Hystart] == 0
    &&& values[Setting::MaxPacingRate] == 0
    &&& values[Setting::VerifyPeer] == 0
    &&& values[Setting::Congestion] == 2
    &&& values[Setting::DatagramFrameSize] == 65_536
    &&& values[Setting::DatagramRecvQueue] == 1000
    &&& values[Setting::DatagramSendQueue] == 1000
}

/// The parameters of the client with a fixed number of messages.
pub open spec fn is_message_client(values: Map<Setting, int>) -> bool {
    &&& has_all(values, false, false)
    &&& values[Setting::MaxIdleTimeout] == 60_000
    &&& values[Setting::MaxRecvUdpPayloadSize] == 1350
    &&& values[Setting::MaxSendUdpPayloadSize] == 1350
    &&& values[Setting::InitialMaxData] == 100_000_000
    &&& values[Setting::InitialMaxStreamDataBidiLocal] == 10_000_000
    &&& values[Setting::InitialMaxStreamDataBidiRemote] == 10_000_000
    &&& values[Setting::InitialMaxStreamDataUni] == 10_000_000
    &&& values[Setting::InitialMaxStreamsBidi] == 100
    &&& values[Setting::InitialMaxStreamsUni] == 100
    &&& values[Setting::MaxAckDelay] == 25
    &&& values[Setting::DisableActiveMigration] == 0
    &&& values[Setting::Hystart] == 1
    &&& values[Setting::VerifyPeer] == 0
    &&& values[Setting::Congestion] == 1
    &&& values[Setting::DatagramRecvQueue] == 0
    &&& values[Setting::DatagramSendQueue] == 0
}

/// The parameters of the client that answers.
pub open spec fn is_echo_client(values: Map<Setting, int>) -> bool {
    &&& has_all(values, false, false)
    &&& values[Setting::MaxIdleTimeout] == 5000
    &&& values[Setting::MaxRecvUdpPayloadSize] == 1350
    &&& values[Setting::MaxSendUdpPayloadSize] == 1350
    &&& values[Setting::InitialMaxData] == 10_000_000
    &&& values[Setting::InitialMaxStreamDataBidiLocal] == 1_000_000
    &&& values[Setting::InitialMaxStreamDataBidiRemote] == 1_000_000
    &&& values[Setting::InitialMaxStreamDataUni] == 0
    &&& values[Setting::InitialMaxStreamsBidi] == 1000
    &&& values[Setting::InitialMaxStreamsUni] == 1000
    &&& values[Setting::MaxAckDelay] == 25
    &&& values[Setting::DisableActiveMigration] == 0
    &&& values[Setting::Hystart] == 1
    &&& values[Setting::VerifyPeer] == 0
    &&& values[Setting::Congestion] == 1
    &&& values[Setting::DatagramRecvQueue] == 0
    &&& values[Setting::DatagramSendQueue] == 0
}

/// The parameters of the client that pings.
pub open spec fn is_ping_client(values: Map<Setting, int>) -> bool {
    &&& has_all(values, false, false)
    &&& values[Setting::MaxIdleTimeout] == 5000
    &&& values[Setting::MaxRecvUdpPayloadSize] == 65_527
    &&& values[Setting::MaxSendUdpPayloadSize] == 1200
    &&& values[Setting::InitialMaxData] == 10_000_000
    &&& values[Setting::InitialMaxStreamDataBidiLocal] == 1_000_000
    &&& values[Setting::InitialMaxStreamDataBidiRemote] == 0
    &&& values[Setting::InitialMaxStreamDataUni] == 0
    &&& values[Setting::InitialMaxStreamsBidi] == 100
    &&& values[Setting::InitialMaxStreamsUni] == 0
    &&& values[Setting::MaxAckDelay] == 25
    &&& values[Setting::DisableActiveMigration] == 0
    &&& values[Setting::Hystart] == 1
    &&& values[Setting::VerifyPeer] == 0
    &&& values[Setting::Congestion] == 1
    &&& values[Setting::DatagramRecvQueue] == 0
    &&& values[Setting::DatagramSendQueue] == 0
}

/// The parameters of the servers that print and greet.
pub open spec fn is_small_server(values: Map<Setting, int>) -> bool {
    &&& has_all(values, false, false)
    &&& values[Setting::MaxIdleTimeout] == 5000
    &&& values[Setting::MaxRecvUdpPayloadSize] == 1350
    &&& values[Setting::MaxSendUdpPayloadSize] == 1350
    &&& values[Setting::InitialMaxData] == 10_000_000
    &&& values[Setting::InitialMaxStreamDataBidiLocal] == 1_000_000
    &&& values[Setting::InitialMaxStreamDataBidiRemote] == 0
    &&& values[Setting::InitialMaxStreamDataUni] == 0
    &&& values[Setting::InitialMaxStreamsBidi] == 100
    &&& values[Setting::InitialMaxStreamsUni] == 0
    &&& values[Setting::MaxAckDelay] == 25
    &&& values[Setting::DisableActiveMigration] == 1
    &&& values[Setting::Hystart] == 1
    &&& values[Setting::VerifyPeer] == 0
    &&& values[Setting::Congestion] == 1
    &&& values[Setting::DatagramRecvQueue] == 0
    &&& values[Setting::DatagramSendQueue] == 0
}

/// The settings of each endpoint come to its parameters.
pub proof fn lemma_endpoint_values()
    ensures
        is_bench(crate::quic_config::bench_settings().values()),
        is_message_client(QuicClient::settings().values()),
        is_echo_client(echo_client::settings().values()),
        is_ping_client(ping_client::settings().values()),
        is_small_server(dcid_server::settings().values()),
{
    lemma_values_mirror(crate::quic_config::bench_settings());
    lemma_values_mirror(QuicClient::settings());
    lemma_values_mirror(echo_client::settings());
    lemma_values_mirror(ping_client::settings());
    lemma_values_mirror(dcid_server::settings());
}

/// Both ends of the bench have the same configuration; a server asks for its
/// two files, and a client for none.
pub proof fn lemma_create_config(is_server: bool, result: Result<QuicSetup, SetupError>)
    requires
        call_ensures(create_config, (is_server,), result),
    ensures
        result matches Ok(setup) ==> {
            &&& is_bench(config_values(setup.config))
            &&& config_protocols(setup.config) == seq![bench_proto()]
            &&& setup.credentials is Some <==> is_server
            &&& setup.credentials matches Some(files) ==> files.cert_chain@ == "cert.crt"@
                && files.priv_key@ == "cert.key"@
        },
{
    lemma_endpoint_values();
    assert(crate::quic_config::APPLICATION_PROTO@ =~= bench_proto());
}

/// There is a setup exactly where its configuration can be built, with the
/// bench's protocol; that does not depend on the side.
pub proof fn lemma_setup_succeeds(is_server: bool, result: Result<QuicSetup, SetupError>)
    requires
        call_ensures(create_config, (is_server,), result),
    ensures
        exists|given: &TransportSettings, proto: &[u8], built: Result<quiche::Config, SetupError>|
            {
                &&& #[trigger] call_ensures(build_config, (given, proto), built)
                &&& is_bench(given.values())
                &&& proto@ == bench_proto()
                &&& built is Ok <==> result is Ok
                &&& built matches Ok(config) ==> result->Ok_0.config == config
                &&& built matches Err(error) ==> result->Err_0 == error
            },
{
    lemma_endpoint_values();
    assert(crate::quic_config::APPLICATION_PROTO@ =~= bench_proto());
}

/// A subscriber's configuration is a server's.
pub proof fn lemma_configure_server(result: Result<QuicSetup, SetupError>)
    requires
        call_ensures(configure_server, (), result),
    ensures
        result matches Ok(setup) ==> {
            &&& is_bench(config_values(setup.config))
            &&& config_protocols(setup.config) == seq![bench_proto()]
            &&& setup.credentials matches Some(files) && files.cert_chain@ == "cert.crt"@
                && files.priv_key@ == "cert.key"@
        },
        call_ensures(create_config, (true,), result),
{
    lemma_endpoint_values();
    assert(crate::quic_config::APPLICATION_PROTO@ =~= bench_proto());
}

/// A publisher's configuration is a client's.
pub proof fn lemma_configure_client(result: Result<QuicSetup, SetupError>)
    requires
        call_ensures(configure_client, (), result),
    ensures
        result matches Ok(setup) ==> {
            &&& is_bench(config_values(setup.config))
            &&& config_protocols(setup.config) == seq![bench_proto()]
            &&& setup.credentials is None
        },
        call_ensures(create_config, (false,), result),
{
    lemma_endpoint_values();
    assert(crate::quic_config::APPLICATION_PROTO@ =~= bench_proto());
}

/// The other clients have the parameters of their kind, and the bench's
/// protocol.
pub proof fn lemma_configure_clients(
    message: Result<quiche::Config, SetupError>,
    echo: Result<quiche::Config, SetupError>,
    ping: Result<quiche::Config, SetupError>,
)
    ensures
        call_ensures(QuicClient::create_config, (), message) ==> (message matches Ok(config)
            ==> is_message_client(config_values(config)) && config_protocols(config)
            == seq![bench_proto()]),
        call_ensures(echo_client::configure, (), echo) ==> (echo matches Ok(config)
            ==> is_echo_client(config_values(config)) && config_protocols(config)
            == seq![bench_proto()]),
        call_ensures(ping_client::configure, (), ping) ==> (ping matches Ok(config)
            ==> is_ping_client(config_values(config)) && config_protocols(config)
            == seq![bench_proto()]),
{
    lemma_endpoint_values();
    assert(crate::quic_config::APPLICATION_PROTO@ =~= bench_proto());
}

/// The small servers have their parameters, each its own protocol and its own
/// two files.
pub proof fn lemma_configure_servers(
    printing: Result<QuicSetup, SetupError>,
    greeting: Result<QuicSetup, SetupError>,
)
    ensures
        call_ensures(dcid_server::configure, (), printing) ==> (printing matches Ok(setup) ==> {
            &&& is_small_server(config_values(setup.config))
            &&& config_protocols(setup.config) == seq![bench_proto()]
            &&& setup.credentials matches Some(files) && files.cert_chain@ == "cert.crt"@
                && files.priv_key@ == "cert.key"@
        }),
        call_ensures(dcid_server::configure_greeting, (), greeting) ==> (greeting matches Ok(setup)
            ==> {
            &&& is_small_server(config_values(setup.config))
            &&& config_protocols(setup.config) == seq![seq![109u8, 121u8, 97u8, 112u8, 112u8]]
            &&& setup.credentials matches Some(files) && files.cert_chain@ == "cert.pem"@
                && files.priv_key@ == "key.pem"@
        }),
{
    lemma_endpoint_values();
    assert(crate::quic_config::APPLICATION_PROTO@ =~= bench_proto());
    assert(dcid_server::GREETING_PROTO@ =~= seq![109u8, 121u8, 97u8, 112u8, 112u8]);
}

/// Nothing happened on a connection that was just made.
pub open spec fn is_untouched(conn: quiche::Connection) -> bool {
    &&& !conn_established(conn)
    &&& !conn_closed(conn)
    &&& !conn_wakes(conn)
    &&& conn_readable(conn).len() == 0
}

/// A connection is made with the identifier, the addresses and the configuration
/// that were given: a server's by accepting, a client's by connecting.
pub proof fn lemma_make(
    scid: &[u8],
    info: &quiche::RecvInfo,
    config: &mut quiche::Config,
    accepted: Result<quiche::Connection, quiche::Error>,
    connected: Result<quiche::Connection, quiche::Error>,
)
    ensures
        call_ensures(accept, (scid, info, config), accepted) ==> (accepted matches Ok(conn) ==> {
            &&& is_untouched(conn)
            &&& conn_origin(conn).is_server
            &&& conn_origin(conn).source_id == scid@
            &&& conn_origin(conn).info == *info
            &&& conn_origin(conn).values == config_values(*old(config))
            &&& conn_origin(conn).protocols == config_protocols(*old(config))
        }),
        call_ensures(connect, (scid, info, config), connected) ==> (connected matches Ok(conn)
            ==> {
            &&& is_untouched(conn)
            &&& !conn_origin(conn).is_server
            &&& conn_origin(conn).source_id == scid@
            &&& conn_origin(conn).info == *info
            &&& conn_origin(conn).values == config_values(*old(config))
            &&& conn_origin(conn).protocols == config_protocols(*old(config))
        }),
{
}

/// A connection is opened on the asked side, under an identifier that was drawn
/// at random for it; without one there is none.
pub proof fn lemma_open(
    is_server: bool,
    info: &quiche::RecvInfo,
    config: &mut quiche::Config,
    result: Result<quiche::Connection, OpenError>,
)
    requires
        call_ensures(open, (is_server, info, config), result),
    ensures
        exists|id: Result<Vec<u8>, NoRandomness>|
            {
                &&& #[trigger] call_ensures(random_conn_id, (), id)
                &&& id is Err <==> (result matches Err(OpenError::NoRandomness))
                &&& result matches Ok(conn) ==> conn_origin(conn).source_id == id->Ok_0@
            },
        result matches Ok(conn) ==> {
            &&& is_untouched(conn)
            &&& conn_origin(conn).is_server == is_server
            &&& conn_origin(conn).source_id.len() == 20
            &&& conn_origin(conn).info == *info
            &&& conn_origin(conn).values == config_values(*old(config))
            &&& conn_origin(conn).protocols == config_protocols(*old(config))
        },
{
}

/// The identifier is the one that was given, where one was; and a refusal is
/// told from a want of randomness.
pub proof fn lemma_open_as(
    is_server: bool,
    id: Result<Vec<u8>, NoRandomness>,
    info: &quiche::RecvInfo,
    config: &mut quiche::Config,
    result: Result<quiche::Connection, OpenError>,
    made: Result<quiche::Connection, quiche::Error>,
    told: Result<quiche::Connection, OpenError>,
)
    requires
        call_ensures(open_as, (is_server, id, info, config), result),
        call_ensures(opened, (made,), told),
    ensures
        id is Err <==> (result matches Err(OpenError::NoRandomness)),
        result matches Ok(conn) ==> conn_origin(conn).source_id == id->Ok_0@ && conn_origin(
            conn,
        ).is_server == is_server && conn_origin(conn).info == *info,
        made matches Ok(conn) ==> told == Ok::<_, OpenError>(conn),
        made matches Err(error) ==> told == Err::<quiche::Connection, _>(
            OpenError::Refused(error),
        ),
{
}

/// Where there is an identifier, there is a connection exactly where
/// `quiche::accept` makes one, on a server, or `quiche::connect`, on a client.
pub proof fn lemma_opening_succeeds(
    is_server: bool,
    id: Result<Vec<u8>, NoRandomness>,
    info: &quiche::RecvInfo,
    config: &mut quiche::Config,
    result: Result<quiche::Connection, OpenError>,
)
    requires
        call_ensures(open_as, (is_server, id, info, config), result),
        id is Ok,
    ensures
        is_server ==> exists|
            scid: &[u8],
            c: &mut quiche::Config,
            made: Result<quiche::Connection, quiche::Error>,
        |
            {
                &&& #[trigger] accepts(scid, info, c, made)
                &&& scid@ == id->Ok_0@
                &&& *c == *old(config)
                &&& made matches Ok(conn) ==> result == Ok::<_, OpenError>(conn)
                &&& made matches Err(error) ==> result == Err::<quiche::Connection, _>(
                    OpenError::Refused(error),
                )
            },
        !is_server ==> exists|
            scid: &[u8],
            c: &mut quiche::Config,
            made: Result<quiche::Connection, quiche::Error>,
        |
            {
                &&& #[trigger] connects(scid, info, c, made)
                &&& scid@ == id->Ok_0@
                &&& *c == *old(config)
                &&& made matches Ok(conn) ==> result == Ok::<_, OpenError>(conn)
                &&& made matches Err(error) ==> result == Err::<quiche::Connection, _>(
                    OpenError::Refused(error),
                )
            },
{
}

/// Whether there is a configuration is looked at first, then whether there is an
/// identifier; the connection is made with both.
pub proof fn lemma_dial_as(
    built: Result<quiche::Config, SetupError>,
    id: Result<Vec<u8>, NoRandomness>,
    info: &quiche::RecvInfo,
    result: Result<quiche::Connection, DialError>,
)
    requires
        call_ensures(dial_as, (built, id, info), result),
    ensures
        built matches Err(error) ==> result == Err::<quiche::Connection, _>(
            DialError::Setup(error),
        ),
        built is Ok && id is Err ==> result == Err::<quiche::Connection, _>(
            DialError::Open(OpenError::NoRandomness),
        ),
        built is Ok && id is Ok && result is Err ==> (result->Err_0 matches DialError::Open(
            OpenError::Refused(_),
        )),
        result matches Ok(conn) ==> {
            &&& is_untouched(conn)
            &&& !conn_origin(conn).is_server
            &&& conn_origin(conn).source_id == id->Ok_0@
            &&& conn_origin(conn).info == *info
            &&& conn_origin(conn).values == config_values(built->Ok_0)
            &&& conn_origin(conn).protocols == config_protocols(built->Ok_0)
        },
{
}

/// Where there are a configuration and an identifier, there is a connection
/// exactly where `quiche::connect` makes one of them.
pub proof fn lemma_dialling_succeeds(
    built: Result<quiche::Config, SetupError>,
    id: Result<Vec<u8>, NoRandomness>,
    info: &quiche::RecvInfo,
    result: Result<quiche::Connection, DialError>,
)
    requires
        call_ensures(dial_as, (built, id, info), result),
        built is Ok,
        id is Ok,
    ensures
        exists|
            scid: &[u8],
            c: &mut quiche::Config,
            made: Result<quiche::Connection, quiche::Error>,
        |
            {
                &&& #[trigger] connects(scid, info, c, made)
                &&& scid@ == id->Ok_0@
                &&& *c == built->Ok_0
                &&& made matches Ok(conn) ==> result == Ok::<_, DialError>(conn)
                &&& made matches Err(error) ==> result == Err::<quiche::Connection, _>(
                    DialError::Open(OpenError::Refused(error)),
                )
            },
{
}

/// A client's connection: fresh, with its peer at the address, and with the
/// bench's protocol.
pub open spec fn is_to(conn: quiche::Connection, info: quiche::RecvInfo) -> bool {
    &&& is_untouched(conn)
    &&& !conn_origin(conn).is_server
    &&& conn_origin(conn).info == info
    &&& conn_origin(conn).protocols == seq![bench_proto()]
}

/// Each client dials with the parameters of its kind, under an identifier of
/// twenty random bytes, or, when it pings, of sixteen bytes 0xba.
pub proof fn lemma_dial(
    info: &quiche::RecvInfo,
    bench: Result<quiche::Connection, DialError>,
    message: Result<quiche::Connection, DialError>,
    echo: Result<quiche::Connection, DialError>,
    ping: Result<quiche::Connection, DialError>,
)
    ensures
        call_ensures(dial, (info,), bench) ==> (bench matches Ok(conn) ==> {
            &&& is_to(conn, *info)
            &&& is_bench(conn_origin(conn).values)
            &&& exists|id: Vec<u8>| #[trigger]
                call_ensures(random_conn_id, (), Ok::<Vec<u8>, NoRandomness>(id))
                    && conn_origin(conn).source_id == id@ && id@.len() == 20
        }),
        call_ensures(QuicClient::dial, (info,), message) ==> (message matches Ok(conn) ==> {
            &&& is_to(conn, *info)
            &&& is_message_client(conn_origin(conn).values)
            &&& exists|id: Vec<u8>| #[trigger]
                call_ensures(random_conn_id, (), Ok::<Vec<u8>, NoRandomness>(id))
                    && conn_origin(conn).source_id == id@ && id@.len() == 20
        }),
        call_ensures(echo_client::dial, (info,), echo) ==> (echo matches Ok(conn) ==> {
            &&& is_to(conn, *info)
            &&& is_echo_client(conn_origin(conn).values)
            &&& exists|id: Vec<u8>| #[trigger]
                call_ensures(random_conn_id, (), Ok::<Vec<u8>, NoRandomness>(id))
                    && conn_origin(conn).source_id == id@ && id@.len() == 20
        }),
        call_ensures(ping_client::dial, (info,), ping) ==> (ping matches Ok(conn) ==> {
            &&& is_to(conn, *info)
            &&& is_ping_client(conn_origin(conn).values)
            &&& conn_origin(conn).source_id.len() == 16
            &&& forall|i: int|
                0 <= i < 16 ==> #[trigger] conn_origin(conn).source_id[i] == 0xba
        }),
{
    lemma_endpoint_values();
    assert(crate::quic_config::APPLICATION_PROTO@ =~= bench_proto());
    if call_ensures(dial, (info,), bench) && bench is Ok {
        lemma_drawn(conn_origin(bench->Ok_0).source_id);
    }
    if call_ensures(QuicClient::dial, (info,), message) && message is Ok {
        lemma_drawn(conn_origin(message->Ok_0).source_id);
    }
    if call_ensures(echo_client::dial, (info,), echo) && echo is Ok {
        lemma_drawn(conn_origin(echo->Ok_0).source_id);
    }
}

/// An identifier that was drawn is one of twenty bytes.
proof fn lemma_drawn(source_id: Seq<u8>)
    requires
        exists|id: Result<Vec<u8>, NoRandomness>|
            #[trigger] call_ensures(random_conn_id, (), id) && id is Ok && source_id
                == id->Ok_0@,
    ensures
        exists|id: Vec<u8>| #[trigger]
            call_ensures(random_conn_id, (), Ok::<Vec<u8>, NoRandomness>(id)) && source_id == id@
                && id@.len() == 20,
{
    let drawn = choose|id: Result<Vec<u8>, NoRandomness>|
        #[trigger] call_ensures(random_conn_id, (), id) && id is Ok && source_id == id->Ok_0@;
    assert(drawn == Ok::<Vec<u8>, NoRandomness>(drawn->Ok_0));
    assert(call_ensures(random_conn_id, (), Ok::<Vec<u8>, NoRandomness>(drawn->Ok_0)));
}

} // verus!
