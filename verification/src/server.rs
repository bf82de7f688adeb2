//! A server that many clients send data to, each known by its address.

use vstd::prelude::*;

use crate::packet::{
    header_fields, header_of, read_header, PacketHeader, PacketType, MAX_CONN_ID_LEN,
};
use crate::registry::Registry;
use crate::subscriber::type_of;
use crate::transport::{
    conn_closed, conn_established, conn_read, conn_readable, deliver, readable, stream_recv,
    ReadOutcome,
};

verus! {

/// How many bytes are read from a stream at a time.
pub const READ_SIZE: usize = 512000;

/// The number of bytes that is reported when a client has sent exactly so many.
pub const REPORT_AT: usize = 102400;

/// A client and its connection. Times are nanoseconds on the server's clock.
pub struct Client<C> {
    pub conn: C,
    pub bytes_received: usize,
    pub first_seen: u128,
    pub last_seen: u128,
}

/// Who an incoming packet is from.
#[derive(Clone, Copy, Debug)]
pub enum Ingress {
    /// The packet has no header that can be read; it is skipped.
    Malformed(quiche::Error),
    /// The client at this place sent it.
    Known(usize),
    /// A new client asks for a connection.
    New,
    /// It is from no client and asks for no connection.
    Stray,
}

/// Who a packet from `peer` is from, by the type in its header.
pub open spec fn is_from<T>(
    registry: Registry<T>,
    peer: Seq<u8>,
    ty: Option<PacketType>,
    ingress: Ingress,
) -> bool {
    match ty {
        None => ingress is Malformed,
        Some(ty) => if registry.map().contains_key(peer) {
            ingress matches Ingress::Known(i) && i < registry.keys().len()
                && registry.keys()[i as int] == peer
        } else if ty == PacketType::Initial {
            ingress is New
        } else {
            ingress is Stray
        },
    }
}

/// Sorts a packet by its header. A client that is known may send any packet,
/// and an Initial packet makes a client known.
pub fn sort_header<T>(
    registry: &Registry<T>,
    peer: &[u8],
    header: &Result<PacketHeader, quiche::Error>,
) -> (ingress: Ingress)
    requires
        registry.wf(),
    ensures
        header matches Ok(h) ==> is_from(*registry, peer@, Some(h.ty), ingress),
        header matches Err(error) ==> ingress == Ingress::Malformed(*error),
{
    match header {
        Err(error) => Ingress::Malformed(*error),
        Ok(header) => match registry.find(peer) {
            Some(i) => Ingress::Known(i),
            None => match header.ty {
                PacketType::Initial => Ingress::New,
                _ => Ingress::Stray,
            },
        },
    }
}

/// Sorts an incoming packet.
pub fn sort_packet<T>(registry: &Registry<T>, peer: &[u8], packet: &[u8]) -> (ingress: Ingress)
    requires
        registry.wf(),
    ensures
        is_from(
            *registry,
            peer@,
            type_of(header_fields(packet@, MAX_CONN_ID_LEN as nat)),
            ingress,
        ),
        header_of(packet@, MAX_CONN_ID_LEN as nat) matches Err(error) ==> ingress
            == Ingress::Malformed(error),
{
    let header = read_header(packet);
    sort_header(registry, peer, &header)
}

/// What came of reading a stream.
#[derive(Clone, Copy, Debug)]
pub enum StreamReport {
    /// `read` bytes were read, `total` from the client so far. `milestone`
    /// tells that the total is the one to report.
    Data { stream_id: u64, read: usize, fin: bool, total: usize, milestone: bool },
    /// There was nothing to read.
    Idle { stream_id: u64 },
    Failed { stream_id: u64, error: quiche::Error },
}

/// The report on reading a stream, from a client that has sent `before` bytes
/// until then.
pub open spec fn report_of(before: int, stream_id: u64, outcome: ReadOutcome) -> StreamReport {
    match outcome {
        ReadOutcome::Data { read, fin } => StreamReport::Data {
            stream_id,
            read,
            fin,
            total: (before + read) as usize,
            milestone: before + read == REPORT_AT,
        },
        ReadOutcome::Blocked => StreamReport::Idle { stream_id },
        ReadOutcome::Failed(error) => StreamReport::Failed { stream_id, error },
    }
}

/// The connection after the streams were read, one after the other.
pub open spec fn after_reading(conn: quiche::Connection, streams: Seq<u64>) -> quiche::Connection
    decreases streams.len(),
{
    if streams.len() == 0 {
        conn
    } else {
        let before = after_reading(conn, streams.drop_last());
        conn_read(before, streams.last(), READ_SIZE as nat).2
    }
}

/// What reading the last of the streams answers, after the others were read.
pub open spec fn last_answer(conn: quiche::Connection, streams: Seq<u64>) -> ReadOutcome {
    let before = after_reading(conn, streams.drop_last());
    conn_read(before, streams.last(), READ_SIZE as nat).0
}

/// How many bytes come out of reading the streams.
pub open spec fn bytes_from(conn: quiche::Connection, streams: Seq<u64>) -> int
    decreases streams.len(),
{
    if streams.len() == 0 {
        0
    } else {
        bytes_from(conn, streams.drop_last()) + last_answer(conn, streams).len()
    }
}

/// The reports on reading the streams, one each and in order, from a client
/// that has sent `before` bytes until then.
pub open spec fn reports_of(conn: quiche::Connection, streams: Seq<u64>, before: int) -> Seq<
    StreamReport,
>
    decreases streams.len(),
{
    if streams.len() == 0 {
        Seq::empty()
    } else {
        reports_of(conn, streams.drop_last(), before).push(
            report_of(
                before + bytes_from(conn, streams.drop_last()),
                streams.last(),
                last_answer(conn, streams),
            ),
        )
    }
}

/// The streams that are read: those with data, on an established connection.
pub open spec fn streams_due(conn: quiche::Connection) -> Seq<u64> {
    if conn_established(conn) {
        conn_readable(conn)
    } else {
        Seq::empty()
    }
}

impl<C> Client<C> {
    /// A client that was just seen for the first time.
    pub fn new(conn: C, now: u128) -> (client: Client<C>)
        ensures
            client == (Client { conn, bytes_received: 0, first_seen: now, last_seen: now }),
    {
        Client { conn, bytes_received: 0, first_seen: now, last_seen: now }
    }

    /// Takes down that the client was seen.
    pub fn touch(&mut self, now: u128)
        ensures
            *final(self) == (Client { last_seen: now, ..*old(self) }),
    {
        self.last_seen = now;
    }

    /// Counts what was read from a stream.
    pub fn count(&mut self, stream_id: u64, outcome: ReadOutcome) -> (report: StreamReport)
        requires
            old(self).bytes_received + outcome.len() <= usize::MAX,
        ensures
            *final(self) == (Client {
                bytes_received: (old(self).bytes_received + outcome.len()) as usize,
                ..*old(self)
            }),
            report == report_of(old(self).bytes_received as int, stream_id, outcome),
    {
        match outcome {
            ReadOutcome::Data { read, fin } => {
                self.bytes_received = self.bytes_received + read;
                StreamReport::Data {
                    stream_id,
                    read,
                    fin,
                    total: self.bytes_received,
                    milestone: self.bytes_received == REPORT_AT,
                }
            },
            ReadOutcome::Blocked => StreamReport::Idle { stream_id },
            ReadOutcome::Failed(error) => StreamReport::Failed { stream_id, error },
        }
    }
}

/// The client's count of `before` bytes runs over at stream `k`, and not
/// earlier.
pub open spec fn runs_over_at(
    conn: quiche::Connection,
    streams: Seq<u64>,
    before: int,
    k: int,
) -> bool {
    &&& 0 <= k < streams.len()
    &&& before + bytes_from(conn, streams.take(k)) <= usize::MAX
    &&& before + bytes_from(conn, streams.take(k + 1)) > usize::MAX
}

/// Reads each stream of the connection that has data, once, where the
/// connection is established. Where the client's count would run over, reading
/// stops behind the stream that it would run over at, which is not counted.
pub fn poll_streams(client: &mut Client<quiche::Connection>) -> (reports: Option<Vec<StreamReport>>)
    ensures
        reports is Some <==> old(client).bytes_received + bytes_from(
            old(client).conn,
            streams_due(old(client).conn),
        ) <= usize::MAX,
        reports matches Some(reports) ==> {
            let streams = streams_due(old(client).conn);
            &&& reports@ == reports_of(
                old(client).conn,
                streams,
                old(client).bytes_received as int,
            )
            &&& *final(client) == (Client {
                conn: after_reading(old(client).conn, streams),
                bytes_received: (old(client).bytes_received + bytes_from(
                    old(client).conn,
                    streams,
                )) as usize,
                ..*old(client)
            })
        },
        reports is None ==> {
            let conn = old(client).conn;
            let streams = streams_due(conn);
            let before = old(client).bytes_received as int;
            exists|k: int|
                {
                    &&& #[trigger] runs_over_at(conn, streams, before, k)
                    &&& *final(client) == (Client {
                        conn: after_reading(conn, streams.take(k + 1)),
                        bytes_received: (before + bytes_from(conn, streams.take(k))) as usize,
                        ..*old(client)
                    })
                }
        },
{
    let mut reports: Vec<StreamReport> = Vec::new();
    if !client.conn.is_established() {
        return Some(reports);
    }
    let streams = readable(&client.conn);
    let ghost conn = client.conn;
    let ghost start = client.bytes_received as int;
    let mut buf: Vec<u8> = vec![0; READ_SIZE];
    let mut i: usize = 0;
    while i < streams.len()
        invariant
            i <= streams@.len(),
            buf@.len() == READ_SIZE,
            conn == old(client).conn,
            start == old(client).bytes_received,
            streams@ == streams_due(conn),
            client.conn == after_reading(conn, streams@.take(i as int)),
            client.first_seen == old(client).first_seen,
            client.last_seen == old(client).last_seen,
            client.bytes_received == start + bytes_from(conn, streams@.take(i as int)),
            reports@ == reports_of(conn, streams@.take(i as int), start),
        decreases streams@.len() - i,
    {
        let stream_id: u64 = streams[i];
        let outcome = stream_recv(&mut client.conn, stream_id, &mut buf);
        assert(streams@.take(i + 1).drop_last() =~= streams@.take(i as int));
        assert(outcome == last_answer(conn, streams@.take(i + 1)));
        if let ReadOutcome::Data { read, .. } = outcome {
            if read > usize::MAX - client.bytes_received {
                proof {
                    lemma_bytes_grow(conn, streams@, i + 1, streams@.len() as int);
                    assert(streams@.take(streams@.len() as int) =~= streams@);
                    assert(runs_over_at(conn, streams@, start, i as int));
                }
                return None;
            }
        }
        reports.push(client.count(stream_id, outcome));
        i = i + 1;
    }
    assert(streams@.take(i as int) =~= streams@);
    Some(reports)
}

/// Takes in a packet from a client that is known. A packet of no bytes is
/// refused; a connection that is closed refuses no other, and stays closed.
pub fn receive(
    registry: &mut Registry<Client<quiche::Connection>>,
    i: usize,
    now: u128,
    packet: &mut [u8],
    info: quiche::RecvInfo,
) -> (result: Result<usize, quiche::Error>)
    requires
        old(registry).wf(),
        i < old(registry).keys().len(),
    ensures
        final(registry).wf(),
        final(registry).keys() == old(registry).keys(),
        final(registry).values() == old(registry).values().update(
            i as int,
            final(registry).values()[i as int],
        ),
        final(registry).values()[i as int] == (Client {
            conn: final(registry).values()[i as int].conn,
            last_seen: now,
            ..old(registry).values()[i as int]
        }),
        result matches Ok(read) ==> read == old(packet)@.len() && read > 0,
        final(packet)@.len() == old(packet)@.len(),
        old(packet)@.len() == 0 ==> result is Err && final(registry).values()[i as int].conn
            == old(registry).values()[i as int].conn,
        conn_closed(old(registry).values()[i as int].conn) ==> conn_closed(
            final(registry).values()[i as int].conn,
        ),
        conn_closed(old(registry).values()[i as int].conn) && old(packet)@.len() > 0
            ==> result is Ok,
        exists|c: &mut quiche::Connection, p: &mut [u8]|
            {
                &&& #[trigger] call_ensures(quiche::Connection::recv, (c, p, info), result)
                &&& *c == old(registry).values()[i as int].conn
                &&& *final(c) == final(registry).values()[i as int].conn
                &&& (*p)@ == old(packet)@
                &&& (*final(p))@ == final(packet)@
            },
{
    let client = registry.value_mut(i);
    client.touch(now);
    deliver(&mut client.conn, packet, info)
}

/// Makes a new client known, unless its connection refused the first packet:
/// then nothing of it is kept.
pub fn enroll<C>(
    registry: &mut Registry<Client<C>>,
    peer: Vec<u8>,
    conn: C,
    now: u128,
    delivered: Result<usize, quiche::Error>,
) -> (result: Result<usize, quiche::Error>)
    requires
        old(registry).wf(),
        !old(registry).map().contains_key(peer@),
    ensures
        final(registry).wf(),
        result == delivered,
        delivered is Err ==> *final(registry) == *old(registry),
        delivered is Ok ==> {
            let client = Client { conn, bytes_received: 0, first_seen: now, last_seen: now };
            &&& final(registry).keys() == old(registry).keys().push(peer@)
            &&& final(registry).values() == old(registry).values().push(client)
            &&& final(registry).map() == old(registry).map().insert(peer@, client)
        },
{
    if delivered.is_ok() {
        registry.insert(peer, Client::new(conn, now));
    }
    delivered
}

/// Takes in the first packet from a new client, over a connection that was just
/// accepted. The client is known from then on; but where its packet is refused,
/// as one of no bytes is, nothing of it is kept. A connection that is closed
/// already refuses no other packet, and stays closed.
pub fn welcome(
    registry: &mut Registry<Client<quiche::Connection>>,
    peer: Vec<u8>,
    conn: quiche::Connection,
    now: u128,
    packet: &mut [u8],
    info: quiche::RecvInfo,
) -> (result: Result<usize, quiche::Error>)
    requires
        old(registry).wf(),
        !old(registry).map().contains_key(peer@),
    ensures
        final(registry).wf(),
        final(packet)@.len() == old(packet)@.len(),
        old(packet)@.len() == 0 ==> result is Err,
        conn_closed(conn) && old(packet)@.len() > 0 ==> result is Ok,
        result is Err ==> *final(registry) == *old(registry),
        result matches Ok(read) ==> {
            &&& conn_closed(conn) ==> conn_closed(final(registry).map()[peer@].conn)
            &&& read == old(packet)@.len()
            &&& final(registry).keys() == old(registry).keys().push(peer@)
            &&& final(registry).values() == old(registry).values().push(
                final(registry).map()[peer@],
            )
            &&& final(registry).map() == old(registry).map().insert(
                peer@,
                final(registry).map()[peer@],
            )
            &&& final(registry).map()[peer@] == (Client {
                conn: final(registry).map()[peer@].conn,
                bytes_received: 0,
                first_seen: now,
                last_seen: now,
            })
        },
        exists|c: &mut quiche::Connection, p: &mut [u8]|
            {
                &&& #[trigger] call_ensures(quiche::Connection::recv, (c, p, info), result)
                &&& *c == conn
                &&& result is Ok ==> *final(c) == final(registry).map()[peer@].conn
                &&& (*p)@ == old(packet)@
                &&& (*final(p))@ == final(packet)@
            },
{
    let mut conn = conn;
    let delivered = deliver(&mut conn, packet, info);
    enroll(registry, peer, conn, now, delivered)
}

/// A packet of a known client, whatever it is, never adds a client; a packet
/// that is no Initial one never does.
pub proof fn lemma_only_initial_packets_add(
    registry: Registry<Client<quiche::Connection>>,
    peer: Seq<u8>,
    ty: PacketType,
    ingress: Ingress,
)
    requires
        is_from(registry, peer, Some(ty), ingress),
        ingress is New,
    ensures
        ty == PacketType::Initial,
        !registry.map().contains_key(peer),
{
}

/// A client's milestone is reported at most once, as long as every read brings
/// something: a second report of it tells of an empty read.
pub proof fn lemma_milestone_once(
    conn: quiche::Connection,
    streams: Seq<u64>,
    before: int,
    i: int,
    j: int,
)
    requires
        0 <= i < j < streams.len(),
        reports_of(conn, streams, before)[i] matches StreamReport::Data { milestone: true, .. },
        reports_of(conn, streams, before)[j] matches StreamReport::Data { milestone: true, .. },
    ensures
        reports_of(conn, streams, before)[j] matches StreamReport::Data { read: 0, .. },
{
    lemma_report_at(conn, streams, before, i);
    lemma_report_at(conn, streams, before, j);
    lemma_bytes_grow(conn, streams, i + 1, j);
    assert(streams.take(i + 1).drop_last() =~= streams.take(i));
    assert(streams.take(j + 1).drop_last() =~= streams.take(j));
}

/// There is one report for each stream, on reading it after those before it.
pub proof fn lemma_report_at(conn: quiche::Connection, streams: Seq<u64>, before: int, i: int)
    requires
        0 <= i < streams.len(),
    ensures
        reports_of(conn, streams, before).len() == streams.len(),
        reports_of(conn, streams, before)[i] == report_of(
            before + bytes_from(conn, streams.take(i)),
            streams[i],
            last_answer(conn, streams.take(i + 1)),
        ),
    decreases streams.len(),
{
    let front = streams.drop_last();
    assert(reports_of(conn, front, before).len() == front.len()) by {
        if front.len() > 0 {
            lemma_report_at(conn, front, before, 0);
        }
    }
    if i < front.len() {
        lemma_report_at(conn, front, before, i);
        assert(front.take(i) =~= streams.take(i));
        assert(front.take(i + 1) =~= streams.take(i + 1));
    } else {
        assert(streams.take(i) =~= front);
        assert(streams.take(i + 1) =~= streams);
    }
}

proof fn lemma_bytes_grow(conn: quiche::Connection, streams: Seq<u64>, i: int, j: int)
    requires
        0 <= i <= j <= streams.len(),
    ensures
        bytes_from(conn, streams.take(i)) <= bytes_from(conn, streams.take(j)),
    decreases j,
{
    if i < j {
        lemma_bytes_grow(conn, streams, i, j - 1);
        assert(streams.take(j).drop_last() =~= streams.take(j - 1));
    }
}

} // verus!
