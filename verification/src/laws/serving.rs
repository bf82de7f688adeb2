//! The servers, and what they keep for their peers.

use vstd::prelude::*;
use vstd::utf8::encode_utf8;

use crate::dcid_server::{
    greet, locate_header, locate_packet, read_chunk, streams_to_read, take_chunk, Destination,
    ReadStep,
};
use crate::packet::{header_fields, header_of, PacketHeader, PacketType};
use crate::registry::{same_bytes, Registry};
use crate::server::{
    after_reading, bytes_from, enroll, last_answer, poll_streams, receive, reports_of, sort_header,
    sort_packet, streams_due, welcome, Client, Ingress, StreamReport,
};
use crate::transport::{
    conn_established, conn_read, conn_readable, conn_sent, ReadOutcome, SendOutcome,
};

verus! {

/// Bytes are the same where there are as many, and each is the same.
pub proof fn lemma_same_bytes(a: &[u8], b: &[u8], same: bool)
    requires
        call_ensures(same_bytes, (a, b), same),
    ensures
        same ==> a@.len() == b@.len() && forall|i: int| 0 <= i < a@.len() ==> a@[i] == b@[i],
        !same ==> a@.len() != b@.len() || exists|i: int| 0 <= i < a@.len() && a@[i] != b@[i],
{
    if !same && a@.len() == b@.len() {
        if forall|i: int| 0 <= i < a@.len() ==> a@[i] == b@[i] {
            assert(a@ =~= b@);
        }
    }
}

/// What a registry holds for a key is the value beside it, and it holds nothing
/// for any other key.
pub proof fn lemma_registry_is_its_entries<T>(registry: Registry<T>, key: Seq<u8>, i: int)
    requires
        registry.wf(),
    ensures
        registry.map().contains_key(key) <==> exists|j: int|
            0 <= j < registry.keys().len() && #[trigger] registry.keys()[j] == key,
        0 <= i < registry.keys().len() ==> registry.map().contains_key(registry.keys()[i])
            && registry.map()[registry.keys()[i]] == registry.values()[i],
        forall|j: int, k: int|
            0 <= j < k < registry.keys().len() ==> #[trigger] registry.keys()[j]
                != #[trigger] registry.keys()[k],
        registry.keys().len() == registry.values().len(),
{
    if registry.keys().contains(key) {
        let j = registry.keys().index_of(key);
        assert(registry.keys()[j] == key);
    }
    if 0 <= i < registry.keys().len() {
        assert(registry.keys().contains(registry.keys()[i]));
        let j = registry.keys().index_of(registry.keys()[i]);
        assert(registry.keys()[j] == registry.keys()[i]);
    }
}

/// A key is found exactly where it is.
pub proof fn lemma_find<T>(registry: &Registry<T>, key: &[u8], found: Option<usize>)
    requires
        registry.wf(),
        call_ensures(Registry::<T>::find, (registry, key), found),
    ensures
        found matches Some(i) ==> i < registry.keys().len() && registry.keys()[i as int] == key@,
        found is None ==> forall|i: int|
            0 <= i < registry.keys().len() ==> #[trigger] registry.keys()[i] != key@,
{
    if found is None {
        assert forall|i: int| 0 <= i < registry.keys().len() implies #[trigger] registry.keys()[i]
            != key@ by {
            assert(registry.keys().contains(registry.keys()[i]));
        }
    }
}

/// A new entry is behind the others, which stay as they are.
pub proof fn lemma_insert<T>(registry: &mut Registry<T>, key: Vec<u8>, value: T)
    requires
        call_ensures(Registry::<T>::insert, (registry, key, value), ()),
    ensures
        final(registry).wf(),
        final(registry).keys() == old(registry).keys().push(key@),
        final(registry).values() == old(registry).values().push(value),
{
}

/// A packet of a client that is known goes to its connection, whatever its type;
/// a stranger's makes a new client where it is an Initial one, and is left alone
/// where it is not.
pub proof fn lemma_sort_header<T>(
    registry: &Registry<T>,
    peer: &[u8],
    header: &Result<PacketHeader, quiche::Error>,
    ingress: Ingress,
)
    requires
        registry.wf(),
        call_ensures(sort_header::<T>, (registry, peer, header), ingress),
    ensures
        ({
            let known = exists|i: int|
                0 <= i < registry.keys().len() && #[trigger] registry.keys()[i] == peer@;
            &&& header matches Err(error) ==> ingress == Ingress::Malformed(*error)
            &&& header is Ok && known ==> ingress is Known && ingress->Known_0
                < registry.keys().len() && registry.keys()[ingress->Known_0 as int] == peer@
            &&& header is Ok && !known && header->Ok_0.ty == PacketType::Initial ==> ingress is New
            &&& header is Ok && !known && header->Ok_0.ty != PacketType::Initial
                ==> ingress is Stray
        }),
{
    lemma_registry_is_its_entries(*registry, peer@, 0);
}

/// The same of a packet, by the header that its bytes hold, where short headers
/// have identifiers of twenty bytes.
pub proof fn lemma_sort_packet<T>(
    registry: &Registry<T>,
    peer: &[u8],
    packet: &[u8],
    ingress: Ingress,
)
    requires
        registry.wf(),
        call_ensures(sort_packet::<T>, (registry, peer, packet), ingress),
    ensures
        ({
            let header = header_fields(packet@, 20);
            let known = exists|i: int|
                0 <= i < registry.keys().len() && #[trigger] registry.keys()[i] == peer@;
            &&& header is None <==> ingress is Malformed
            &&& header_of(packet@, 20) matches Err(error) ==> ingress == Ingress::Malformed(error)
            &&& header is Some && known ==> ingress is Known && ingress->Known_0
                < registry.keys().len() && registry.keys()[ingress->Known_0 as int] == peer@
            &&& header is Some && !known ==> (ingress is New <==> (header->0).0
                == PacketType::Initial)
            &&& header is Some && !known ==> (ingress is Stray <==> (header->0).0
                != PacketType::Initial)
        }),
{
    lemma_registry_is_its_entries(*registry, peer@, 0);
}

/// A new client has sent nothing, and was seen now.
pub proof fn lemma_new_client<C>(conn: C, now: u128, client: Client<C>)
    requires
        call_ensures(Client::<C>::new, (conn, now), client),
    ensures
        client.conn == conn,
        client.bytes_received == 0,
        client.first_seen == now,
        client.last_seen == now,
{
}

/// Seeing a client again changes when it was last seen, and nothing else.
pub proof fn lemma_touch<C>(client: &mut Client<C>, now: u128)
    requires
        call_ensures(Client::<C>::touch, (client, now), ()),
    ensures
        final(client).last_seen == now,
        final(client).first_seen == old(client).first_seen,
        final(client).bytes_received == old(client).bytes_received,
        final(client).conn == old(client).conn,
{
}

/// What was read is added to what the client has sent, and told; the total is
/// marked exactly when it is 102400.
pub proof fn lemma_count<C>(
    client: &mut Client<C>,
    stream_id: u64,
    outcome: ReadOutcome,
    report: StreamReport,
)
    requires
        call_ensures(Client::<C>::count, (client, stream_id, outcome), report),
    ensures
        outcome matches ReadOutcome::Data { read, fin } ==> {
            &&& old(client).bytes_received + read <= usize::MAX ==> final(client).bytes_received
                == old(client).bytes_received + read
            &&& old(client).bytes_received + read <= usize::MAX ==> report == (StreamReport::Data {
                stream_id,
                read,
                fin,
                total: final(client).bytes_received,
                milestone: final(client).bytes_received == 102400,
            })
        },
        !(outcome is Data) ==> final(client).bytes_received == old(client).bytes_received,
        outcome is Blocked ==> report == (StreamReport::Idle { stream_id }),
        outcome matches ReadOutcome::Failed(error) ==> report == (StreamReport::Failed {
            stream_id,
            error,
        }),
        final(client).conn == old(client).conn,
        final(client).first_seen == old(client).first_seen,
        final(client).last_seen == old(client).last_seen,
{
}

/// Streams are read where the connection is established, in the order in which
/// it names them, each on what the one before has left, with room for 512000
/// bytes.
pub proof fn lemma_reading_order(conn: quiche::Connection, streams: Seq<u64>, stream_id: u64)
    ensures
        conn_established(conn) ==> streams_due(conn) == conn_readable(conn),
        !conn_established(conn) ==> streams_due(conn).len() == 0,
        after_reading(conn, Seq::empty()) == conn,
        ({
            let before = after_reading(conn, streams);
            let (outcome, bytes, after) = conn_read(before, stream_id, 512000);
            &&& after_reading(conn, streams.push(stream_id)) == after
            &&& last_answer(conn, streams.push(stream_id)) == outcome
        }),
{
    assert(streams.push(stream_id).drop_last() =~= streams);
}

/// How many bytes a report tells of.
pub open spec fn told(report: StreamReport) -> int {
    match report {
        StreamReport::Data { read, .. } => read as int,
        _ => 0,
    }
}

/// How many bytes the reports tell of.
pub open spec fn told_by(reports: Seq<StreamReport>) -> int
    decreases reports.len(),
{
    if reports.len() == 0 {
        0
    } else {
        told_by(reports.drop_last()) + told(reports.last())
    }
}

/// A report is on the stream, and tells what reading it answered.
pub open spec fn tells(report: StreamReport, stream_id: u64, outcome: ReadOutcome) -> bool {
    match outcome {
        ReadOutcome::Data { read, fin } => report is Data && report->Data_stream_id == stream_id
            && report->read == read && report->fin == fin,
        ReadOutcome::Blocked => report == (StreamReport::Idle { stream_id }),
        ReadOutcome::Failed(error) => report == (StreamReport::Failed { stream_id, error }),
    }
}

proof fn lemma_reports(conn: quiche::Connection, streams: Seq<u64>, before: int)
    requires
        0 <= before,
        before + bytes_from(conn, streams) <= usize::MAX,
    ensures
        ({
            let reports = reports_of(conn, streams, before);
            &&& reports.len() == streams.len()
            &&& told_by(reports) == bytes_from(conn, streams)
            &&& 0 <= bytes_from(conn, streams)
            &&& forall|i: int|
                0 <= i < streams.len() ==> tells(
                    #[trigger] reports[i],
                    streams[i],
                    last_answer(conn, streams.take(i + 1)),
                )
            &&& forall|i: int|
                0 <= i < streams.len() ==> (#[trigger] reports[i] is Data ==> {
                    &&& reports[i]->total == before + told_by(reports.take(i + 1))
                    &&& reports[i]->milestone == (reports[i]->total == 102400)
                })
        }),
    decreases streams.len(),
{
    let reports = reports_of(conn, streams, before);
    if streams.len() > 0 {
        let front = streams.drop_last();
        let earlier = reports_of(conn, front, before);
        lemma_reports_len(conn, front, before);
        assert(bytes_from(conn, front) <= bytes_from(conn, streams));
        lemma_reports(conn, front, before);
        assert(reports.drop_last() =~= earlier);
        assert forall|i: int| 0 <= i < streams.len() implies tells(
            #[trigger] reports[i],
            streams[i],
            last_answer(conn, streams.take(i + 1)),
        ) by {
            if i < front.len() {
                assert(reports[i] == earlier[i]);
                assert(front.take(i + 1) =~= streams.take(i + 1));
            } else {
                assert(streams.take(i + 1) =~= streams);
            }
        }
        assert forall|i: int|
            0 <= i < streams.len() && #[trigger] reports[i] is Data implies reports[i]->total
            == before + told_by(reports.take(i + 1)) && reports[i]->milestone == (
        reports[i]->total == 102400) by {
            if i < front.len() {
                assert(reports[i] == earlier[i]);
                assert(earlier.take(i + 1) =~= reports.take(i + 1));
            } else {
                assert(reports.take(i + 1) =~= reports);
            }
        }
    }
}

proof fn lemma_reports_len(conn: quiche::Connection, streams: Seq<u64>, before: int)
    ensures
        reports_of(conn, streams, before).len() == streams.len(),
        0 <= bytes_from(conn, streams),
    decreases streams.len(),
{
    if streams.len() > 0 {
        lemma_reports_len(conn, streams.drop_last(), before);
    }
}

/// Each stream that is due is read once and reported on, in order; each report
/// of bytes tells the sum of all bytes so far, and marks it where it is 102400;
/// and the client's count grows by exactly what the reports tell.
pub proof fn lemma_poll_streams(
    client: &mut Client<quiche::Connection>,
    reports: Option<Vec<StreamReport>>,
)
    requires
        call_ensures(poll_streams, (client,), reports),
        reports is Some,
    ensures
        ({
            let streams = streams_due(old(client).conn);
            let told_so = reports->0@;
            &&& told_so.len() == streams.len()
            &&& forall|i: int|
                0 <= i < streams.len() ==> tells(
                    #[trigger] told_so[i],
                    streams[i],
                    last_answer(old(client).conn, streams.take(i + 1)),
                )
            &&& forall|i: int|
                0 <= i < streams.len() ==> (#[trigger] told_so[i] is Data ==> {
                    &&& told_so[i]->total == old(client).bytes_received + told_by(
                        told_so.take(i + 1),
                    )
                    &&& told_so[i]->milestone == (told_so[i]->total == 102400)
                })
            &&& final(client).bytes_received == old(client).bytes_received + told_by(told_so)
            &&& final(client).conn == after_reading(old(client).conn, streams)
            &&& final(client).first_seen == old(client).first_seen
            &&& final(client).last_seen == old(client).last_seen
        }),
{
    lemma_reports(
        old(client).conn,
        streams_due(old(client).conn),
        old(client).bytes_received as int,
    );
}

/// A packet of a known client is given to that client's connection, which is
/// the only one that changes; the client was seen now.
pub proof fn lemma_receive(
    registry: &mut Registry<Client<quiche::Connection>>,
    i: usize,
    now: u128,
    packet: &mut [u8],
    info: quiche::RecvInfo,
    result: Result<usize, quiche::Error>,
)
    requires
        call_ensures(receive, (registry, i, now, packet, info), result),
        i < old(registry).values().len(),
    ensures
        final(registry).keys() == old(registry).keys(),
        final(registry).values().len() == old(registry).values().len(),
        forall|j: int|
            0 <= j < old(registry).values().len() && j != i ==> #[trigger] final(
                registry
            ).values()[j] == old(registry).values()[j],
        final(registry).values()[i as int].last_seen == now,
        final(registry).values()[i as int].first_seen == old(
            registry
        ).values()[i as int].first_seen,
        final(registry).values()[i as int].bytes_received == old(
            registry
        ).values()[i as int].bytes_received,
        exists|c: &mut quiche::Connection, p: &mut [u8]|
            {
                &&& #[trigger] call_ensures(quiche::Connection::recv, (c, p, info), result)
                &&& *c == old(registry).values()[i as int].conn
                &&& *final(c) == final(registry).values()[i as int].conn
                &&& (*p)@ == old(packet)@
            },
{
}

/// A client is kept exactly where its first packet was taken in, as a new one,
/// with what was made of its connection.
pub proof fn lemma_enroll<C>(
    registry: &mut Registry<Client<C>>,
    peer: Vec<u8>,
    conn: C,
    now: u128,
    delivered: Result<usize, quiche::Error>,
    result: Result<usize, quiche::Error>,
)
    requires
        call_ensures(enroll::<C>, (registry, peer, conn, now, delivered), result),
    ensures
        result == delivered,
        delivered is Err ==> final(registry).keys() == old(registry).keys() && final(
            registry
        ).values() == old(registry).values(),
        delivered is Ok ==> {
            let client = final(registry).values().last();
            &&& final(registry).keys() == old(registry).keys().push(peer@)
            &&& final(registry).values() == old(registry).values().push(client)
            &&& client.conn == conn
            &&& client.bytes_received == 0
            &&& client.first_seen == now
            &&& client.last_seen == now
        },
{
}

/// The first packet of a client goes to its connection. Where it is taken in the
/// client is known from then on, behind all others, with the connection that is
/// left; where it is refused nobody is.
pub proof fn lemma_welcome(
    registry: &mut Registry<Client<quiche::Connection>>,
    peer: Vec<u8>,
    conn: quiche::Connection,
    now: u128,
    packet: &mut [u8],
    info: quiche::RecvInfo,
    result: Result<usize, quiche::Error>,
)
    requires
        call_ensures(welcome, (registry, peer, conn, now, packet, info), result),
    ensures
        exists|c: &mut quiche::Connection, p: &mut [u8]|
            {
                &&& #[trigger] call_ensures(quiche::Connection::recv, (c, p, info), result)
                &&& *c == conn
                &&& result is Ok ==> *final(c) == final(registry).values().last().conn
                &&& (*p)@ == old(packet)@
                &&& (*final(p))@ == final(packet)@
            },
        result is Err ==> *final(registry) == *old(registry),
        result is Ok ==> {
            let client = final(registry).values().last();
            &&& final(registry).keys() == old(registry).keys().push(peer@)
            &&& final(registry).values() == old(registry).values().push(client)
            &&& client.bytes_received == 0
            &&& client.first_seen == now
            &&& client.last_seen == now
        },
{
}

/// A packet is for the connection with its identifier, where there is one, and
/// asks for one under that identifier where there is none.
pub proof fn lemma_locate_header<T>(
    registry: &Registry<T>,
    header: Result<PacketHeader, quiche::Error>,
    destination: Destination,
)
    requires
        registry.wf(),
        call_ensures(locate_header::<T>, (registry, header), destination),
    ensures
        header matches Err(error) ==> destination == Destination::Malformed(error),
        header matches Ok(h) ==> {
            let known = exists|i: int|
                0 <= i < registry.keys().len() && #[trigger] registry.keys()[i] == h.dcid@;
            &&& known ==> destination is Known && destination->Known_0 < registry.keys().len()
                && registry.keys()[destination->Known_0 as int] == h.dcid@
            &&& !known ==> destination is Unknown && destination->Unknown_0@ == h.dcid@
        },
{
    if header is Ok {
        lemma_registry_is_its_entries(*registry, header->Ok_0.dcid@, 0);
    }
}

/// The same of a packet, by the header that its bytes hold, where short headers
/// have identifiers of twenty bytes.
pub proof fn lemma_locate_packet<T>(
    registry: &Registry<T>,
    packet: &[u8],
    destination: Destination,
)
    requires
        registry.wf(),
        call_ensures(locate_packet::<T>, (registry, packet), destination),
    ensures
        header_fields(packet@, 20) is None <==> destination is Malformed,
        header_of(packet@, 20) matches Err(error) ==> destination == Destination::Malformed(error),
        header_fields(packet@, 20) matches Some((_, dcid)) ==> {
            let known = exists|i: int|
                0 <= i < registry.keys().len() && #[trigger] registry.keys()[i] == dcid;
            &&& known ==> destination is Known && destination->Known_0 < registry.keys().len()
                && registry.keys()[destination->Known_0 as int] == dcid
            &&& !known ==> destination is Unknown && destination->Unknown_0@ == dcid
        },
{
    if header_fields(packet@, 20) is Some {
        lemma_registry_is_its_entries(*registry, (header_fields(packet@, 20)->0).1, 0);
    }
}

/// A client is greeted where its connection is established, on stream 0, which
/// is ended by it; any other connection is left as it is.
pub proof fn lemma_greet(conn: &mut quiche::Connection, outcome: Option<SendOutcome>)
    requires
        call_ensures(greet, (conn,), outcome),
    ensures
        outcome is Some <==> conn_established(*old(conn)),
        outcome matches Some(answer) ==> (answer, *final(conn)) == conn_sent(
            *old(conn),
            0,
            encode_utf8("hello from server"@),
            true,
        ),
        outcome is None ==> *final(conn) == *old(conn),
{
}

/// The streams of an established connection are read, and of no other.
pub proof fn lemma_streams_to_read(conn: &quiche::Connection, streams: Vec<u64>)
    requires
        call_ensures(streams_to_read, (conn,), streams),
    ensures
        conn_established(*conn) ==> streams@ == conn_readable(*conn),
        !conn_established(*conn) ==> streams@.len() == 0,
{
}

/// A chunk is what was read of the buffer, and reading goes on exactly after a
/// chunk.
pub proof fn lemma_take_chunk(outcome: ReadOutcome, buf: Vec<u8>, step: ReadStep)
    requires
        call_ensures(take_chunk, (outcome, buf), step),
    ensures
        step is Chunk <==> outcome is Data,
        outcome is Data ==> step->bytes@ == buf@.take(outcome->read as int) && step->fin
            == outcome->fin,
        outcome is Blocked ==> step is Drained,
        outcome matches ReadOutcome::Failed(error) ==> step == ReadStep::Failed(error),
{
}

/// A stream is read 4096 bytes at a time.
pub proof fn lemma_read_chunk(conn: &mut quiche::Connection, stream_id: u64, step: ReadStep)
    requires
        call_ensures(read_chunk, (conn, stream_id), step),
    ensures
        ({
            let (outcome, bytes, after) = conn_read(*old(conn), stream_id, 4096);
            &&& *final(conn) == after
            &&& step is Chunk <==> outcome is Data
            &&& outcome is Data ==> step->bytes@ == bytes && step->fin == outcome->fin
            &&& outcome is Blocked ==> step is Drained
            &&& outcome matches ReadOutcome::Failed(error) ==> step == ReadStep::Failed(error)
        }),
{
}

} // verus!
