//! Transport configurations.
//!
//! A configuration is described by plain values, [`TransportSettings`], one
//! description per endpoint of the bench, and then built from them by
//! `quiche`. The contracts speak of what a `quiche::Config` holds through two
//! names: [`config_values`], its parameters, and [`config_protocols`], the
//! application protocols that it negotiates.

use vstd::prelude::*;

verus! {

/// `quiche::Config`: the parameters that connections start from.
#[verifier::external_type_specification]
#[verifier::external_body]
pub struct ExConfig(quiche::Config);

/// `quiche::Error`: why a QUIC operation was refused.
#[verifier::external_type_specification]
#[verifier::external_body]
pub struct ExError(quiche::Error);

/// Congestion control algorithms.
#[derive(Clone, Copy, Debug, PartialEq, Eq, Structural)]
pub enum CongestionControl {
    Cubic,
    Bbr,
}

impl CongestionControl {
    /// The number of the algorithm in `quiche::CongestionControlAlgorithm`.
    pub open spec fn number(self) -> int {
        match self {
            CongestionControl::Cubic => 1,
            CongestionControl::Bbr => 2,
        }
    }
}

/// The parameters of a configuration that the bench cares about.
pub enum Setting {
    MaxIdleTimeout,
    MaxRecvUdpPayloadSize,
    MaxSendUdpPayloadSize,
    InitialMaxData,
    InitialMaxStreamDataBidiLocal,
    InitialMaxStreamDataBidiRemote,
    InitialMaxStreamDataUni,
    InitialMaxStreamsBidi,
    InitialMaxStreamsUni,
    MaxAckDelay,
    DisableActiveMigration,
    Hystart,
    MaxPacingRate,
    VerifyPeer,
    Congestion,
    DatagramFrameSize,
    DatagramRecvQueue,
    DatagramSendQueue,
}

/// A flag as the number that a configuration's values hold for it.
pub open spec fn flag(b: bool) -> int {
    if b {
        1
    } else {
        0
    }
}

/// The parameters that a configuration holds. A parameter without a value
/// (no limit on pacing, no DATAGRAM frames) is not in the map.
pub uninterp spec fn config_values(config: quiche::Config) -> Map<Setting, int>;

/// The application protocols that a configuration negotiates, in order.
pub uninterp spec fn config_protocols(config: quiche::Config) -> Seq<Seq<u8>>;

/// The smallest outgoing UDP payload that a configuration can be limited to.
pub const MIN_SEND_UDP_PAYLOAD_SIZE: usize = 1200;

/// The largest DATAGRAM frame that is announced when such frames are enabled.
pub const DATAGRAM_FRAME_SIZE: u64 = 65536;

/// The values of a configuration that nothing was set in.
pub open spec fn default_values() -> Map<Setting, int> {
    map![
        Setting::MaxIdleTimeout => 0int,
        Setting::MaxRecvUdpPayloadSize => 65527int,
        Setting::MaxSendUdpPayloadSize => 1200int,
        Setting::InitialMaxData => 0int,
        Setting::InitialMaxStreamDataBidiLocal => 0int,
        Setting::InitialMaxStreamDataBidiRemote => 0int,
        Setting::InitialMaxStreamDataUni => 0int,
        Setting::InitialMaxStreamsBidi => 0int,
        Setting::InitialMaxStreamsUni => 0int,
        Setting::MaxAckDelay => 25int,
        Setting::DisableActiveMigration => 0int,
        Setting::Hystart => 1int,
        Setting::VerifyPeer => 0int,
        Setting::Congestion => 1int,
        Setting::DatagramRecvQueue => 0int,
        Setting::DatagramSendQueue => 0int,
    ]
}

/// Calls `quiche::Config::new` for the version of QUIC that `quiche` prefers.
/// A configuration that comes out holds the default values and no protocol.
/// Whether one comes out is up to the TLS library's context, and not stated.
#[verifier::external_body]
fn new_config() -> (result: Result<quiche::Config, quiche::Error>)
    ensures
        result matches Ok(config) ==> config_values(config) == default_values() && config_protocols(
            config,
        ) == Seq::<Seq<u8>>::empty(),
{
    quiche::Config::new(quiche::PROTOCOL_VERSION)
}

/// Calls `quiche::Config::set_application_protos` with a list of one protocol.
/// The protocol replaces the configured ones and leaves the parameters alone.
/// Whether the TLS library takes it too is not stated.
#[verifier::external_body]
fn set_application_proto(config: &mut quiche::Config, proto: &[u8]) -> (result: Result<
    (),
    quiche::Error,
>)
    ensures
        config_values(*final(config)) == config_values(*old(config)),
        config_protocols(*final(config)) == seq![proto@],
{
    config.set_application_protos(&[proto])
}

/// Calls `quiche::Config::set_cc_algorithm`: sets the algorithm, nothing else.
#[verifier::external_body]
fn set_congestion_control(config: &mut quiche::Config, algorithm: CongestionControl)
    ensures
        config_values(*final(config)) == config_values(*old(config)).insert(
            Setting::Congestion,
            algorithm.number(),
        ),
        config_protocols(*final(config)) == config_protocols(*old(config)),
{
    config.set_cc_algorithm(
        match algorithm {
            CongestionControl::Cubic => quiche::CongestionControlAlgorithm::CUBIC,
            CongestionControl::Bbr => quiche::CongestionControlAlgorithm::BBR,
        },
    )
}

/// `quiche::Config::set_max_idle_timeout` sets that parameter, nothing else.
pub assume_specification[ quiche::Config::set_max_idle_timeout ](
    config: &mut quiche::Config,
    v: u64,
)
    ensures
        config_values(*final(config)) == config_values(*old(config)).insert(
            Setting::MaxIdleTimeout,
            v as int,
        ),
        config_protocols(*final(config)) == config_protocols(*old(config)),
;

/// `quiche::Config::set_max_recv_udp_payload_size` sets that parameter,
/// nothing else.
pub assume_specification[ quiche::Config::set_max_recv_udp_payload_size ](
    config: &mut quiche::Config,
    v: usize,
)
    ensures
        config_values(*final(config)) == config_values(*old(config)).insert(
            Setting::MaxRecvUdpPayloadSize,
            v as int,
        ),
        config_protocols(*final(config)) == config_protocols(*old(config)),
;

/// `quiche::Config::set_max_send_udp_payload_size` sets that parameter,
/// nothing else. A smaller value than the least possible one counts as that.
pub assume_specification[ quiche::Config::set_max_send_udp_payload_size ](
    config: &mut quiche::Config,
    v: usize,
)
    ensures
        config_values(*final(config)) == config_values(*old(config)).insert(
            Setting::MaxSendUdpPayloadSize,
            at_least(v as int, MIN_SEND_UDP_PAYLOAD_SIZE as int),
        ),
        config_protocols(*final(config)) == config_protocols(*old(config)),
;

/// `quiche::Config::set_initial_max_data` sets that parameter, nothing else.
pub assume_specification[ quiche::Config::set_initial_max_data ](
    config: &mut quiche::Config,
    v: u64,
)
    ensures
        config_values(*final(config)) == config_values(*old(config)).insert(
            Setting::InitialMaxData,
            v as int,
        ),
        config_protocols(*final(config)) == config_protocols(*old(config)),
;

/// `quiche::Config::set_initial_max_stream_data_bidi_local` sets that
/// parameter, nothing else.
pub assume_specification[ quiche::Config::set_initial_max_stream_data_bidi_local ](
    config: &mut quiche::Config,
    v: u64,
)
    ensures
        config_values(*final(config)) == config_values(*old(config)).insert(
            Setting::InitialMaxStreamDataBidiLocal,
            v as int,
        ),
        config_protocols(*final(config)) == config_protocols(*old(config)),
;

/// `quiche::Config::set_initial_max_stream_data_bidi_remote` sets that
/// parameter, nothing else.
pub assume_specification[ quiche::Config::set_initial_max_stream_data_bidi_remote ](
    config: &mut quiche::Config,
    v: u64,
)
    ensures
        config_values(*final(config)) == config_values(*old(config)).insert(
            Setting::InitialMaxStreamDataBidiRemote,
            v as int,
        ),
        config_protocols(*final(config)) == config_protocols(*old(config)),
;

/// `quiche::Config::set_initial_max_stream_data_uni` sets that parameter,
/// nothing else.
pub assume_specification[ quiche::Config::set_initial_max_stream_data_uni ](
    config: &mut quiche::Config,
    v: u64,
)
    ensures
        config_values(*final(config)) == config_values(*old(config)).insert(
            Setting::InitialMaxStreamDataUni,
            v as int,
        ),
        config_protocols(*final(config)) == config_protocols(*old(config)),
;

/// `quiche::Config::set_initial_max_streams_bidi` sets that parameter, nothing
/// else.
pub assume_specification[ quiche::Config::set_initial_max_streams_bidi ](
    config: &mut quiche::Config,
    v: u64,
)
    ensures
        config_values(*final(config)) == config_values(*old(config)).insert(
            Setting::InitialMaxStreamsBidi,
            v as int,
        ),
        config_protocols(*final(config)) == config_protocols(*old(config)),
;

/// `quiche::Config::set_initial_max_streams_uni` sets that parameter, nothing
/// else.
pub assume_specification[ quiche::Config::set_initial_max_streams_uni ](
    config: &mut quiche::Config,
    v: u64,
)
    ensures
        config_values(*final(config)) == config_values(*old(config)).insert(
            Setting::InitialMaxStreamsUni,
            v as int,
        ),
        config_protocols(*final(config)) == config_protocols(*old(config)),
;

/// `quiche::Config::set_max_ack_delay` sets that parameter, nothing else.
pub assume_specification[ quiche::Config::set_max_ack_delay ](
    config: &mut quiche::Config,
    v: u64,
)
    ensures
        config_values(*final(config)) == config_values(*old(config)).insert(
            Setting::MaxAckDelay,
            v as int,
        ),
        config_protocols(*final(config)) == config_protocols(*old(config)),
;

/// `quiche::Config::set_disable_active_migration` sets that flag, nothing
/// else.
pub assume_specification[ quiche::Config::set_disable_active_migration ](
    config: &mut quiche::Config,
    v: bool,
)
    ensures
        config_values(*final(config)) == config_values(*old(config)).insert(
            Setting::DisableActiveMigration,
            flag(v),
        ),
        config_protocols(*final(config)) == config_protocols(*old(config)),
;

/// `quiche::Config::enable_hystart` sets that flag, nothing else.
pub assume_specification[ quiche::Config::enable_hystart ](config: &mut quiche::Config, v: bool)
    ensures
        config_values(*final(config)) == config_values(*old(config)).insert(
            Setting::Hystart,
            flag(v),
        ),
        config_protocols(*final(config)) == config_protocols(*old(config)),
;

/// `quiche::Config::set_max_pacing_rate` sets that parameter, nothing else.
pub assume_specification[ quiche::Config::set_max_pacing_rate ](
    config: &mut quiche::Config,
    v: u64,
)
    ensures
        config_values(*final(config)) == config_values(*old(config)).insert(
            Setting::MaxPacingRate,
            v as int,
        ),
        config_protocols(*final(config)) == config_protocols(*old(config)),
;

/// `quiche::Config::verify_peer` sets that flag of the TLS context, nothing
/// else.
pub assume_specification[ quiche::Config::verify_peer ](config: &mut quiche::Config, verify: bool)
    ensures
        config_values(*final(config)) == config_values(*old(config)).insert(
            Setting::VerifyPeer,
            flag(verify),
        ),
        config_protocols(*final(config)) == config_protocols(*old(config)),
;

/// `quiche::Config::enable_dgram` announces DATAGRAM frames of the recommended
/// size, or none, and sets the lengths of the two queues, nothing else.
pub assume_specification[ quiche::Config::enable_dgram ](
    config: &mut quiche::Config,
    enabled: bool,
    recv_queue_len: usize,
    send_queue_len: usize,
)
    ensures
        config_values(*final(config)) == (if enabled {
            config_values(*old(config)).insert(
                Setting::DatagramFrameSize,
                DATAGRAM_FRAME_SIZE as int,
            )
        } else {
            config_values(*old(config)).remove(Setting::DatagramFrameSize)
        }).insert(Setting::DatagramRecvQueue, recv_queue_len as int).insert(
            Setting::DatagramSendQueue,
            send_queue_len as int,
        ),
        config_protocols(*final(config)) == config_protocols(*old(config)),
;

/// The larger of two numbers.
pub open spec fn at_least(v: int, least: int) -> int {
    if v < least {
        least
    } else {
        v
    }
}

/// The two queues of DATAGRAM frames, in frames.
#[derive(Clone, Copy, Debug, PartialEq, Eq, Structural)]
pub struct DatagramQueues {
    pub recv: usize,
    pub send: usize,
}

/// What a configuration is to hold, as plain values.
#[derive(Clone, Copy, Debug)]
pub struct TransportSettings {
    /// Milliseconds without traffic after which a connection is dropped.
    pub max_idle_timeout: u64,
    pub max_recv_udp_payload_size: usize,
    pub max_send_udp_payload_size: usize,
    pub initial_max_data: u64,
    pub initial_max_stream_data_bidi_local: u64,
    pub initial_max_stream_data_bidi_remote: u64,
    pub initial_max_stream_data_uni: u64,
    pub initial_max_streams_bidi: u64,
    pub initial_max_streams_uni: u64,
    /// Milliseconds by which an acknowledgement may be late.
    pub max_ack_delay: u64,
    pub disable_active_migration: bool,
    pub hystart: bool,
    /// `None` leaves the pacing rate unlimited.
    pub max_pacing_rate: Option<u64>,
    pub verify_peer: bool,
    pub congestion: CongestionControl,
    /// `None` leaves DATAGRAM frames disabled.
    pub datagrams: Option<DatagramQueues>,
}

impl TransportSettings {
    /// The parameters of a configuration that holds these settings.
    pub open spec fn values(self) -> Map<Setting, int> {
        let base = map![
            Setting::MaxIdleTimeout => self.max_idle_timeout as int,
            Setting::MaxRecvUdpPayloadSize => self.max_recv_udp_payload_size as int,
            Setting::MaxSendUdpPayloadSize => at_least(
                self.max_send_udp_payload_size as int,
                MIN_SEND_UDP_PAYLOAD_SIZE as int,
            ),
            Setting::InitialMaxData => self.initial_max_data as int,
            Setting::InitialMaxStreamDataBidiLocal =>
                self.initial_max_stream_data_bidi_local as int,
            Setting::InitialMaxStreamDataBidiRemote =>
                self.initial_max_stream_data_bidi_remote as int,
            Setting::InitialMaxStreamDataUni => self.initial_max_stream_data_uni as int,
            Setting::InitialMaxStreamsBidi => self.initial_max_streams_bidi as int,
            Setting::InitialMaxStreamsUni => self.initial_max_streams_uni as int,
            Setting::MaxAckDelay => self.max_ack_delay as int,
            Setting::DisableActiveMigration => flag(self.disable_active_migration),
            Setting::Hystart => flag(self.hystart),
            Setting::VerifyPeer => flag(self.verify_peer),
            Setting::Congestion => self.congestion.number(),
            Setting::DatagramRecvQueue => self.recv_queue(),
            Setting::DatagramSendQueue => self.send_queue(),
        ];
        let paced = match self.max_pacing_rate {
            Some(rate) => base.insert(Setting::MaxPacingRate, rate as int),
            None => base,
        };
        match self.datagrams {
            Some(_) => paced.insert(Setting::DatagramFrameSize, DATAGRAM_FRAME_SIZE as int),
            None => paced,
        }
    }

    pub open spec fn recv_queue(self) -> int {
        match self.datagrams {
            Some(queues) => queues.recv as int,
            None => 0,
        }
    }

    pub open spec fn send_queue(self) -> int {
        match self.datagrams {
            Some(queues) => queues.send as int,
            None => 0,
        }
    }

    /// The settings say something of the parameter: they do of all but of those
    /// of pacing and DATAGRAM frames, where these are not given.
    pub open spec fn sets(self, setting: Setting) -> bool {
        match setting {
            Setting::MaxPacingRate => self.max_pacing_rate is Some,
            Setting::DatagramFrameSize => self.datagrams is Some,
            Setting::DatagramRecvQueue => self.datagrams is Some,
            Setting::DatagramSendQueue => self.datagrams is Some,
            _ => true,
        }
    }
}

/// Why a configuration could not be built.
#[derive(Clone, Copy, Debug)]
pub enum SetupError {
    /// The TLS library gave no context.
    Context(quiche::Error),
    /// The TLS library did not take the application protocol.
    Protocol(quiche::Error),
}

/// Puts the settings into a configuration whose protocol was set; one in which
/// nothing else was set holds exactly the settings then. `taken` is what the
/// TLS library said to the protocol.
pub fn apply_settings(
    config: quiche::Config,
    taken: Result<(), quiche::Error>,
    settings: &TransportSettings,
) -> (result: Result<quiche::Config, SetupError>)
    ensures
        taken matches Err(error) ==> result == Err::<quiche::Config, _>(
            SetupError::Protocol(error),
        ),
        taken is Ok ==> {
            &&& result matches Ok(settled)
            &&& config_protocols(settled) == config_protocols(config)
            &&& config_values(config) == default_values() ==> config_values(settled)
                == settings.values()
            &&& forall|setting: Setting| #[trigger]
                config_values(settled).contains_key(setting) <==> (settings.sets(setting)
                    || config_values(config).contains_key(setting))
            &&& forall|setting: Setting| #[trigger]
                config_values(settled)[setting] == if settings.sets(setting) {
                    settings.values()[setting]
                } else {
                    config_values(config)[setting]
                }
        },
{
    if let Err(error) = taken {
        return Err(SetupError::Protocol(error));
    }
    let ghost before = config_values(config);
    let mut config = config;
    config.set_max_idle_timeout(settings.max_idle_timeout);
    config.set_max_recv_udp_payload_size(settings.max_recv_udp_payload_size);
    config.set_initial_max_data(settings.initial_max_data);
    config.set_initial_max_stream_data_bidi_local(settings.initial_max_stream_data_bidi_local);
    config.set_initial_max_stream_data_bidi_remote(settings.initial_max_stream_data_bidi_remote);
    config.set_initial_max_stream_data_uni(settings.initial_max_stream_data_uni);
    config.set_initial_max_streams_bidi(settings.initial_max_streams_bidi);
    config.set_initial_max_streams_uni(settings.initial_max_streams_uni);
    config.set_max_ack_delay(settings.max_ack_delay);
    config.set_disable_active_migration(settings.disable_active_migration);
    config.enable_hystart(settings.hystart);
    if let Some(rate) = settings.max_pacing_rate {
        config.set_max_pacing_rate(rate);
    }
    config.verify_peer(settings.verify_peer);
    set_congestion_control(&mut config, settings.congestion);
    config.set_max_send_udp_payload_size(settings.max_send_udp_payload_size);
    if let Some(queues) = settings.datagrams {
        config.enable_dgram(true, queues.recv, queues.send);
    }
    assert(before == default_values() ==> config_values(config) =~= settings.values());
    Ok(config)
}

/// `created` is an answer of `quiche::Config::new`.
pub closed spec fn creates(created: Result<quiche::Config, quiche::Error>) -> bool {
    call_ensures(new_config, (), created)
}

/// `taken` is an answer of `quiche::Config::set_application_protos` to this
/// configuration and this protocol.
pub closed spec fn takes(
    config: &mut quiche::Config,
    proto: &[u8],
    taken: Result<(), quiche::Error>,
) -> bool {
    call_ensures(set_application_proto, (config, proto), taken)
}

/// Completes a configuration, where there is one: it then offers exactly one
/// application protocol, and holds exactly the given settings if it was fresh.
pub fn complete_config(
    created: Result<quiche::Config, quiche::Error>,
    settings: &TransportSettings,
    proto: &[u8],
) -> (result: Result<quiche::Config, SetupError>)
    ensures
        created matches Err(error) ==> result == Err::<quiche::Config, _>(
            SetupError::Context(error),
        ),
        created is Ok ==> !(result matches Err(SetupError::Context(_))),
        result matches Ok(config) ==> {
            &&& config_protocols(config) == seq![proto@]
            &&& config_values(created->Ok_0) == default_values() ==> config_values(config)
                == settings.values()
        },
        created matches Ok(config) ==> exists|c: &mut quiche::Config, taken: Result<
            (),
            quiche::Error,
        >|
            {
                &&& #[trigger] takes(c, proto, taken)
                &&& *c == config
                &&& call_ensures(apply_settings, (*final(c), taken, settings), result)
            },
{
    match created {
        Ok(config) => {
            let mut config = config;
            let take = set_application_proto;
            let taken = take(&mut config, proto);
            assert forall|c: &mut quiche::Config|
                #[trigger] call_ensures(set_application_proto, (c, proto), taken) implies takes(
                c,
                proto,
                taken,
            ) by {}
            let apply = apply_settings;
            apply(config, taken, settings)
        },
        Err(error) => Err(SetupError::Context(error)),
    }
}

/// Builds a configuration that holds exactly the given settings and offers
/// exactly one application protocol.
pub fn build_config(settings: &TransportSettings, proto: &[u8]) -> (result: Result<
    quiche::Config,
    SetupError,
>)
    ensures
        result matches Ok(config) ==> {
            &&& config_values(config) == settings.values()
            &&& config_protocols(config) == seq![proto@]
        },
        exists|created: Result<quiche::Config, quiche::Error>|
            {
                &&& #[trigger] creates(created)
                &&& call_ensures(complete_config, (created, settings, proto), result)
            },
{
    let create = new_config;
    let created = create();
    assert(creates(created));
    let complete = complete_config;
    complete(created, settings, proto)
}

/// The largest UDP payload that an endpoint of the bench takes in.
pub const MAX_PACKET_SIZE: usize = 1452;

/// The largest UDP payload that an endpoint of the bench sends.
pub const MAX_DATAGRAM_SIZE: usize = 1452;

/// Milliseconds without traffic after which the bench drops a connection.
pub const IDLE_TIMEOUT_MS: u64 = 30000;

/// 100 MB.
pub const INITIAL_MAX_DATA: u64 = 100_000_000;

/// 10 MB.
pub const INITIAL_MAX_STREAM_DATA: u64 = 10_000_000;

/// The one application protocol of the bench: the length of a name, then the
/// name, `myapp`.
pub const APPLICATION_PROTO: [u8; 6] = [5, 109, 121, 97, 112, 112];

/// The settings of publishers and subscribers: one-way streams only, early
/// acknowledgements, no limit on pacing, DATAGRAM frames enabled.
#[verifier::allow_in_spec]
pub fn bench_settings() -> TransportSettings
    returns
        (TransportSettings {
            max_idle_timeout: IDLE_TIMEOUT_MS,
            max_recv_udp_payload_size: MAX_PACKET_SIZE,
            max_send_udp_payload_size: MAX_DATAGRAM_SIZE,
            initial_max_data: INITIAL_MAX_DATA,
            initial_max_stream_data_bidi_local: INITIAL_MAX_STREAM_DATA,
            initial_max_stream_data_bidi_remote: INITIAL_MAX_STREAM_DATA,
            initial_max_stream_data_uni: INITIAL_MAX_STREAM_DATA,
            initial_max_streams_bidi: 0,
            initial_max_streams_uni: 1000,
            max_ack_delay: 1,
            disable_active_migration: false,
            hystart: false,
            max_pacing_rate: Some(0),
            verify_peer: false,
            congestion: CongestionControl::Bbr,
            datagrams: Some(DatagramQueues { recv: 1000, send: 1000 }),
        }),
{
    TransportSettings {
        max_idle_timeout: IDLE_TIMEOUT_MS,
        max_recv_udp_payload_size: MAX_PACKET_SIZE,
        max_send_udp_payload_size: MAX_DATAGRAM_SIZE,
        initial_max_data: INITIAL_MAX_DATA,
        initial_max_stream_data_bidi_local: INITIAL_MAX_STREAM_DATA,
        initial_max_stream_data_bidi_remote: INITIAL_MAX_STREAM_DATA,
        initial_max_stream_data_uni: INITIAL_MAX_STREAM_DATA,
        initial_max_streams_bidi: 0,
        initial_max_streams_uni: 1000,
        max_ack_delay: 1,
        disable_active_migration: false,
        hystart: false,
        max_pacing_rate: Some(0),
        verify_peer: false,
        congestion: CongestionControl::Bbr,
        datagrams: Some(DatagramQueues { recv: 1000, send: 1000 }),
    }
}

/// The PEM files that a server proves its identity with.
pub struct Credentials {
    pub cert_chain: String,
    pub priv_key: String,
}

/// A configuration, with the files that are still to be loaded into it.
pub struct QuicSetup {
    pub config: quiche::Config,
    pub credentials: Option<Credentials>,
}

/// The setup that comes of building a configuration with the settings and the
/// protocol: there is one exactly where that succeeds.
pub open spec fn comes_of_building(
    result: Result<QuicSetup, SetupError>,
    settings: TransportSettings,
    proto: Seq<u8>,
) -> bool {
    exists|given: &TransportSettings, p: &[u8], built: Result<quiche::Config, SetupError>|
        {
            &&& #[trigger] call_ensures(build_config, (given, p), built)
            &&& *given == settings
            &&& p@ == proto
            &&& built matches Ok(config) ==> result is Ok && result->Ok_0.config == config
            &&& built matches Err(error) ==> result == Err::<QuicSetup, _>(error)
        }
}

impl QuicSetup {
    /// The configuration holds `settings` and offers `proto` alone.
    pub open spec fn holds(self, settings: TransportSettings, proto: Seq<u8>) -> bool {
        &&& config_values(self.config) == settings.values()
        &&& config_protocols(self.config) == seq![proto]
    }

    /// The setup of one end of the bench. Only a server has files to load.
    pub open spec fn is_for_bench(self, is_server: bool) -> bool {
        &&& self.holds(bench_settings(), APPLICATION_PROTO@)
        &&& if is_server {
            self.asks_for("cert.crt"@, "cert.key"@)
        } else {
            self.credentials is None
        }
    }

    /// The files to load are exactly these two.
    pub open spec fn asks_for(self, cert_chain: Seq<char>, priv_key: Seq<char>) -> bool {
        self.credentials matches Some(files) && files.cert_chain@ == cert_chain
            && files.priv_key@ == priv_key
    }
}

/// The configuration of a subscriber.
pub fn configure_server() -> (result: Result<QuicSetup, SetupError>)
    ensures
        result matches Ok(setup) ==> setup.is_for_bench(true),
        call_ensures(create_config, (true,), result),
{
    let create = create_config;
    create(true)
}

/// The configuration of a publisher.
pub fn configure_client() -> (result: Result<QuicSetup, SetupError>)
    ensures
        result matches Ok(setup) ==> setup.is_for_bench(false),
        call_ensures(create_config, (false,), result),
{
    let create = create_config;
    create(false)
}

/// Adds the files that are still to be loaded, where there is a configuration.
pub fn with_credentials(
    built: Result<quiche::Config, SetupError>,
    credentials: Option<Credentials>,
) -> (result: Result<QuicSetup, SetupError>)
    ensures
        result == (match built {
            Ok(config) => Ok(QuicSetup { config, credentials }),
            Err(error) => Err(error),
        }),
{
    match built {
        Ok(config) => Ok(QuicSetup { config, credentials }),
        Err(error) => Err(error),
    }
}

/// The configuration of either end of the bench. Only a server has files to
/// load.
pub fn create_config(is_server: bool) -> (result: Result<QuicSetup, SetupError>)
    ensures
        result matches Ok(setup) ==> setup.is_for_bench(is_server),
        comes_of_building(result, bench_settings(), APPLICATION_PROTO@),
{
    let credentials = if is_server {
        Some(
            Credentials { cert_chain: "cert.crt".to_owned(), priv_key: "cert.key".to_owned() },
        )
    } else {
        None
    };
    let proto: [u8; 6] = APPLICATION_PROTO;
    let build = build_config;
    let built = build(&bench_settings(), proto.as_slice());
    with_credentials(built, credentials)
}

/// Setups of the same end of the bench agree, whichever function they come from
/// and however often it is called: in every parameter, in the protocol, and in
/// the files to load, of which a client has none.
pub proof fn lemma_setups_agree(a: QuicSetup, b: QuicSetup, is_server: bool)
    requires
        a.is_for_bench(is_server),
        b.is_for_bench(is_server),
    ensures
        config_values(a.config) == config_values(b.config),
        config_protocols(a.config) == config_protocols(b.config),
        a.credentials is Some <==> is_server,
        b.credentials is Some <==> is_server,
        is_server ==> a.credentials->0.cert_chain@ == b.credentials->0.cert_chain@
            && a.credentials->0.priv_key@ == b.credentials->0.priv_key@,
{
}

} // verus!
