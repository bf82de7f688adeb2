//! New connections.
//!
//! A connection is made from a configuration, an identifier and two addresses.
//! The addresses are those of a packet from the peer: the one that asks for the
//! connection, or the ones that are to come.

use vstd::prelude::*;

use crate::packet::{random_conn_id, NoRandomness, MAX_CONN_ID_LEN};
use crate::quic_config::{
    bench_settings, config_protocols, config_values, configure_client, QuicSetup, Setting,
    SetupError,
    TransportSettings, APPLICATION_PROTO,
};
use crate::transport::{conn_closed, conn_established, conn_readable, conn_wakes};

verus! {

/// What a connection is made with.
pub struct Origin {
    pub is_server: bool,
    /// The identifier that the peer is to address the connection by.
    pub source_id: Seq<u8>,
    /// The addresses of packets from the peer.
    pub info: quiche::RecvInfo,
    pub values: Map<Setting, int>,
    pub protocols: Seq<Seq<u8>>,
}

/// What a connection was made with.
pub uninterp spec fn conn_origin(conn: quiche::Connection) -> Origin;

/// The largest number that QUIC can put on the wire.
pub const MAX_WIRE_NUMBER: u64 = 4_611_686_018_427_387_903;

/// The parameter can be put on the wire.
pub open spec fn on_wire(values: Map<Setting, int>, setting: Setting) -> bool {
    0 <= values[setting] <= MAX_WIRE_NUMBER
}

/// Connections can be made with these parameters: what is announced to the peer
/// can be put on the wire, and the first ten packets can be counted.
pub open spec fn usable(values: Map<Setting, int>) -> bool {
    &&& on_wire(values, Setting::MaxIdleTimeout)
    &&& on_wire(values, Setting::MaxRecvUdpPayloadSize)
    &&& on_wire(values, Setting::InitialMaxData)
    &&& on_wire(values, Setting::InitialMaxStreamDataBidiLocal)
    &&& on_wire(values, Setting::InitialMaxStreamDataBidiRemote)
    &&& on_wire(values, Setting::InitialMaxStreamDataUni)
    &&& on_wire(values, Setting::InitialMaxStreamsBidi)
    &&& on_wire(values, Setting::InitialMaxStreamsUni)
    &&& on_wire(values, Setting::MaxAckDelay)
    &&& 10 * values[Setting::MaxSendUdpPayloadSize] <= usize::MAX
}

/// A connection that was just made: nothing happened on it, and it waits for
/// nothing.
pub open spec fn is_fresh(conn: quiche::Connection) -> bool {
    &&& !conn_established(conn)
    &&& !conn_closed(conn)
    &&& !conn_wakes(conn)
    &&& conn_readable(conn) == Seq::<u64>::empty()
}

/// Calls `quiche::accept` with the identifier and the packet's addresses, and
/// no identifier of an earlier try. A connection that comes out is fresh, was
/// made with what was given, and leaves the configuration's parameters and
/// protocols alone. Whether one comes out is up to the TLS library, and not
/// stated.
#[verifier::external_body]
fn accept_from(scid: &[u8], info: &quiche::RecvInfo, config: &mut quiche::Config) -> (result:
    Result<quiche::Connection, quiche::Error>)
    requires
        usable(config_values(*old(config))),
    ensures
        result matches Ok(conn) ==> is_fresh(conn) && conn_origin(conn) == (Origin {
            is_server: true,
            source_id: scid@,
            info: *info,
            values: config_values(*old(config)),
            protocols: config_protocols(*old(config)),
        }),
        config_values(*final(config)) == config_values(*old(config)),
        config_protocols(*final(config)) == config_protocols(*old(config)),
{
    quiche::accept(&quiche::ConnectionId::from_ref(scid), None, info.to, info.from, config)
}

/// Calls `quiche::connect` with the identifier and the addresses, and no name of
/// the server. What comes out is as in [`accept_from`], on the other side.
/// Whether a connection comes out is up to the TLS library, and not stated.
#[verifier::external_body]
fn connect_to(scid: &[u8], info: &quiche::RecvInfo, config: &mut quiche::Config) -> (result: Result<
    quiche::Connection,
    quiche::Error,
>)
    requires
        usable(config_values(*old(config))),
    ensures
        result matches Ok(conn) ==> is_fresh(conn) && conn_origin(conn) == (Origin {
            is_server: false,
            source_id: scid@,
            info: *info,
            values: config_values(*old(config)),
            protocols: config_protocols(*old(config)),
        }),
        config_values(*final(config)) == config_values(*old(config)),
        config_protocols(*final(config)) == config_protocols(*old(config)),
{
    quiche::connect(None, &quiche::ConnectionId::from_ref(scid), info.to, info.from, config)
}

/// `result` is an answer of `quiche::accept` to this identifier, these addresses
/// and this configuration.
pub closed spec fn accepts(
    scid: &[u8],
    info: &quiche::RecvInfo,
    config: &mut quiche::Config,
    result: Result<quiche::Connection, quiche::Error>,
) -> bool {
    call_ensures(accept_from, (scid, info, config), result)
}

/// `result` is an answer of `quiche::connect` to them.
pub closed spec fn connects(
    scid: &[u8],
    info: &quiche::RecvInfo,
    config: &mut quiche::Config,
    result: Result<quiche::Connection, quiche::Error>,
) -> bool {
    call_ensures(connect_to, (scid, info, config), result)
}

/// Accepts the connection that a packet asks for, under a given identifier.
pub fn accept(scid: &[u8], info: &quiche::RecvInfo, config: &mut quiche::Config) -> (result: Result<
    quiche::Connection,
    quiche::Error,
>)
    requires
        usable(config_values(*old(config))),
    ensures
        result matches Ok(conn) ==> is_fresh(conn) && conn_origin(conn) == (Origin {
            is_server: true,
            source_id: scid@,
            info: *info,
            values: config_values(*old(config)),
            protocols: config_protocols(*old(config)),
        }),
        config_values(*final(config)) == config_values(*old(config)),
        config_protocols(*final(config)) == config_protocols(*old(config)),
        exists|c: &mut quiche::Config|
            {
                &&& #[trigger] accepts(scid, info, c, result)
                &&& *c == *old(config)
                &&& *final(c) == *final(config)
            },
{
    let make = accept_from;
    let result = make(scid, info, config);
    assert forall|c: &mut quiche::Config|
        #[trigger] call_ensures(accept_from, (scid, info, c), result) implies accepts(
        scid,
        info,
        c,
        result,
    ) by {}
    result
}

/// Makes a connection to a server, under a given identifier.
pub fn connect(scid: &[u8], info: &quiche::RecvInfo, config: &mut quiche::Config) -> (result: Result<
    quiche::Connection,
    quiche::Error,
>)
    requires
        usable(config_values(*old(config))),
    ensures
        result matches Ok(conn) ==> is_fresh(conn) && conn_origin(conn) == (Origin {
            is_server: false,
            source_id: scid@,
            info: *info,
            values: config_values(*old(config)),
            protocols: config_protocols(*old(config)),
        }),
        config_values(*final(config)) == config_values(*old(config)),
        config_protocols(*final(config)) == config_protocols(*old(config)),
        exists|c: &mut quiche::Config|
            {
                &&& #[trigger] connects(scid, info, c, result)
                &&& *c == *old(config)
                &&& *final(c) == *final(config)
            },
{
    let make = connect_to;
    let result = make(scid, info, config);
    assert forall|c: &mut quiche::Config|
        #[trigger] call_ensures(connect_to, (scid, info, c), result) implies connects(
        scid,
        info,
        c,
        result,
    ) by {}
    result
}

/// Why there is no connection.
#[derive(Clone, Copy, Debug)]
pub enum OpenError {
    /// There is no identifier for it.
    NoRandomness,
    Refused(quiche::Error),
}

/// What became of making a connection.
pub fn opened(made: Result<quiche::Connection, quiche::Error>) -> (result: Result<
    quiche::Connection,
    OpenError,
>)
    ensures
        result == (match made {
            Ok(conn) => Ok(conn),
            Err(error) => Err(OpenError::Refused(error)),
        }),
{
    match made {
        Ok(conn) => Ok(conn),
        Err(error) => Err(OpenError::Refused(error)),
    }
}

/// `made` is what comes of making a connection on the given side.
pub open spec fn makes(
    is_server: bool,
    scid: &[u8],
    info: &quiche::RecvInfo,
    config: &mut quiche::Config,
    made: Result<quiche::Connection, quiche::Error>,
) -> bool {
    if is_server {
        call_ensures(accept, (scid, info, config), made)
    } else {
        call_ensures(connect, (scid, info, config), made)
    }
}

/// Accepts the connection that a packet asks for, or makes one to a server,
/// where there is an identifier for it.
pub fn open_as(
    is_server: bool,
    id: Result<Vec<u8>, NoRandomness>,
    info: &quiche::RecvInfo,
    config: &mut quiche::Config,
) -> (result: Result<quiche::Connection, OpenError>)
    requires
        usable(config_values(*old(config))),
    ensures
        id is Err ==> result == Err::<quiche::Connection, _>(OpenError::NoRandomness)
            && *final(config) == *old(config),
        id is Ok ==> !(result matches Err(OpenError::NoRandomness)),
        result matches Ok(conn) ==> is_fresh(conn) && conn_origin(conn) == (Origin {
            is_server,
            source_id: id->Ok_0@,
            info: *info,
            values: config_values(*old(config)),
            protocols: config_protocols(*old(config)),
        }),
        config_values(*final(config)) == config_values(*old(config)),
        config_protocols(*final(config)) == config_protocols(*old(config)),
        id matches Ok(bytes) ==> exists|
            scid: &[u8],
            c: &mut quiche::Config,
            made: Result<quiche::Connection, quiche::Error>,
        |
            {
                &&& #[trigger] makes(is_server, scid, info, c, made)
                &&& scid@ == bytes@
                &&& *c == *old(config)
                &&& *final(c) == *final(config)
                &&& call_ensures(opened, (made,), result)
            },
{
    match id {
        Ok(id) => {
            let scid = id.as_slice();
            let made = if is_server {
                let make = accept;
                make(scid, info, config)
            } else {
                let make = connect;
                make(scid, info, config)
            };
            assert forall|c: &mut quiche::Config|
                is_server && #[trigger] call_ensures(accept, (scid, info, c), made) implies makes(
                is_server,
                scid,
                info,
                c,
                made,
            ) by {}
            assert forall|c: &mut quiche::Config|
                !is_server && #[trigger] call_ensures(
                    connect,
                    (scid, info, c),
                    made,
                ) implies makes(is_server, scid, info, c, made) by {}
            let tell = opened;
            tell(made)
        },
        Err(_) => Err(OpenError::NoRandomness),
    }
}

/// Accepts the connection that a packet asks for, or makes one to a server,
/// under a random identifier.
pub fn open(is_server: bool, info: &quiche::RecvInfo, config: &mut quiche::Config) -> (result: Result<
    quiche::Connection,
    OpenError,
>)
    requires
        usable(config_values(*old(config))),
    ensures
        result matches Ok(conn) ==> {
            let id = conn_origin(conn).source_id;
            &&& is_fresh(conn)
            &&& id.len() == MAX_CONN_ID_LEN
            &&& conn_origin(conn) == (Origin {
                is_server,
                source_id: id,
                info: *info,
                values: config_values(*old(config)),
                protocols: config_protocols(*old(config)),
            })
        },
        config_values(*final(config)) == config_values(*old(config)),
        config_protocols(*final(config)) == config_protocols(*old(config)),
        exists|drawn: Result<Vec<u8>, NoRandomness>|
            {
                &&& #[trigger] call_ensures(random_conn_id, (), drawn)
                &&& drawn is Err <==> (result matches Err(OpenError::NoRandomness))
                &&& result matches Ok(conn) ==> conn_origin(conn).source_id == drawn->Ok_0@
            },
        exists|drawn: Result<Vec<u8>, NoRandomness>, c: &mut quiche::Config|
            {
                &&& call_ensures(random_conn_id, (), drawn)
                &&& #[trigger] call_ensures(open_as, (is_server, drawn, info, c), result)
                &&& *c == *old(config)
                &&& *final(c) == *final(config)
            },
{
    let draw = random_conn_id;
    let id = draw();
    let make = open_as;
    make(is_server, id, info, config)
}

/// Why a client has no connection.
#[derive(Clone, Copy, Debug)]
pub enum DialError {
    /// There is no configuration for it.
    Setup(SetupError),
    Open(OpenError),
}

/// A client's connection, made with the given settings.
pub open spec fn is_dialled(
    conn: quiche::Connection,
    settings: TransportSettings,
    source_id: Seq<u8>,
    info: quiche::RecvInfo,
) -> bool {
    &&& is_fresh(conn)
    &&& conn_origin(conn) == (Origin {
        is_server: false,
        source_id,
        info,
        values: settings.values(),
        protocols: seq![APPLICATION_PROTO@],
    })
}

/// Makes a connection to a server, where there are a configuration and an
/// identifier for it.
pub fn dial_as(
    built: Result<quiche::Config, SetupError>,
    id: Result<Vec<u8>, NoRandomness>,
    info: &quiche::RecvInfo,
) -> (result: Result<quiche::Connection, DialError>)
    requires
        built matches Ok(config) ==> usable(config_values(config)),
    ensures
        built matches Err(error) ==> result == Err::<quiche::Connection, _>(
            DialError::Setup(error),
        ),
        built is Ok ==> !(result matches Err(DialError::Setup(_))),
        built is Ok && id is Err ==> result == Err::<quiche::Connection, _>(
            DialError::Open(OpenError::NoRandomness),
        ),
        built is Ok && id is Ok ==> !(result matches Err(
            DialError::Open(OpenError::NoRandomness),
        )),
        result matches Ok(conn) ==> is_fresh(conn) && conn_origin(conn) == (Origin {
            is_server: false,
            source_id: id->Ok_0@,
            info: *info,
            values: config_values(built->Ok_0),
            protocols: config_protocols(built->Ok_0),
        }),
        built matches Ok(config) ==> exists|
            c: &mut quiche::Config,
            made: Result<quiche::Connection, OpenError>,
        |
            {
                &&& #[trigger] call_ensures(open_as, (false, id, info, c), made)
                &&& *c == config
                &&& made matches Ok(conn) ==> result == Ok::<_, DialError>(conn)
                &&& made matches Err(error) ==> result == Err::<quiche::Connection, _>(
                    DialError::Open(error),
                )
            },
{
    match built {
        Ok(config) => {
            let mut config = config;
            let make = open_as;
            match make(false, id, info, &mut config) {
                Ok(conn) => Ok(conn),
                Err(error) => Err(DialError::Open(error)),
            }
        },
        Err(error) => Err(DialError::Setup(error)),
    }
}

/// Makes a connection to a server of the bench, under a random identifier.
pub fn dial(info: &quiche::RecvInfo) -> (result: Result<quiche::Connection, DialError>)
    ensures
        result matches Ok(conn) ==> {
            let id = conn_origin(conn).source_id;
            &&& is_dialled(conn, bench_settings(), id, *info)
            &&& id.len() == MAX_CONN_ID_LEN
        },
        exists|built: Result<QuicSetup, SetupError>, drawn: Result<Vec<u8>, NoRandomness>|
            {
                &&& #[trigger] call_ensures(configure_client, (), built)
                &&& #[trigger] call_ensures(random_conn_id, (), drawn)
                &&& built matches Err(error) ==> result == Err::<quiche::Connection, _>(
                    DialError::Setup(error),
                )
                &&& built is Ok ==> !(result matches Err(DialError::Setup(_)))
                &&& built is Ok ==> (drawn is Err <==> (result matches Err(
                    DialError::Open(OpenError::NoRandomness),
                )))
                &&& result matches Ok(conn) ==> conn_origin(conn).source_id == drawn->Ok_0@
                &&& call_ensures(
                    dial_as,
                    (
                        match built {
                            Ok(setup) => Ok::<quiche::Config, SetupError>(setup.config),
                            Err(error) => Err(error),
                        },
                        drawn,
                        info,
                    ),
                    result,
                )
            },
{
    proof {
        lemma_settings_are_usable();
    }
    let configure = configure_client;
    let draw = random_conn_id;
    let built = match configure() {
        Ok(setup) => Ok(setup.config),
        Err(error) => Err(error),
    };
    let make = dial_as;
    make(built, draw(), info)
}

/// Connections can be made with the settings of every endpoint.
pub proof fn lemma_settings_are_usable()
    ensures
        usable(bench_settings().values()),
        usable(crate::quic_client::QuicClient::settings().values()),
        usable(crate::echo_client::settings().values()),
        usable(crate::ping_client::settings().values()),
        usable(crate::dcid_server::settings().values()),
{
}

} // verus!
