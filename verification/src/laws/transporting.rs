//! Packets, timers and identifiers.

use vstd::prelude::*;

use crate::packet::{
    filled_id, fills, random_conn_id, read_header, NoRandomness, PacketHeader, PacketType,
};
use crate::transport::{
    conn_closed, conn_established, conn_readable, conn_wakes, connection_timeout, deliver,
    first_packet, flush_step, names_timeout, next_deadline, next_packet, rearm, sends, wake,
    FirstPacket, FlushStep, PacketOutcome,
};

verus! {

/// What delivering answers, and what it leaves of the connection and of the
/// bytes, is what `quiche::Connection::recv` made of them. No success counts
/// other than all bytes, and there is none for no bytes.
pub proof fn lemma_deliver(
    conn: &mut quiche::Connection,
    packet: &mut [u8],
    info: quiche::RecvInfo,
    result: Result<usize, quiche::Error>,
)
    requires
        call_ensures(deliver, (conn, packet, info), result),
    ensures
        exists|c: &mut quiche::Connection, p: &mut [u8]|
            {
                &&& #[trigger] call_ensures(quiche::Connection::recv, (c, p, info), result)
                &&& *c == *old(conn)
                &&& *final(c) == *final(conn)
                &&& (*p)@ == old(packet)@
                &&& (*final(p))@ == final(packet)@
            },
        result matches Ok(read) ==> read == old(packet)@.len() && read != 0,
        old(packet)@.len() == 0 ==> result is Err && *final(conn) == *old(conn),
        conn_closed(*old(conn)) && old(packet)@.len() > 0 ==> result is Ok,
        conn_closed(*old(conn)) ==> conn_closed(*final(conn)),
{
}

/// What comes out, and what it leaves, is what `quiche::Connection::send` made
/// of the connection and the room. A packet is never empty and never longer than
/// the room; there is none of a closed connection, and an error without room.
pub proof fn lemma_next_packet(
    conn: &mut quiche::Connection,
    out: &mut [u8],
    outcome: PacketOutcome,
)
    requires
        call_ensures(next_packet, (conn, out), outcome),
    ensures
        exists|c: &mut quiche::Connection, o: &mut [u8]|
            {
                &&& #[trigger] sends(c, o, outcome)
                &&& *c == *old(conn)
                &&& *final(c) == *final(conn)
                &&& (*o)@ == old(out)@
                &&& (*final(o))@ == final(out)@
            },
        outcome matches PacketOutcome::Packet { len, .. } ==> 1 <= len <= old(out)@.len(),
        final(out)@.len() == old(out)@.len(),
        old(out)@.len() == 0 ==> outcome is Failed,
        conn_closed(*old(conn)) && old(out)@.len() > 0 ==> outcome is Idle,
{
}

/// Waking up is `quiche::Connection::on_timeout`, which neither establishes a
/// connection, nor brings data, nor opens what is closed.
pub proof fn lemma_wake(conn: &mut quiche::Connection)
    requires
        call_ensures(wake, (conn,), ()),
    ensures
        exists|c: &mut quiche::Connection|
            {
                &&& #[trigger] call_ensures(quiche::Connection::on_timeout, (c,), ())
                &&& *c == *old(conn)
                &&& *final(c) == *final(conn)
            },
        conn_established(*final(conn)) <==> conn_established(*old(conn)),
        conn_readable(*final(conn)) == conn_readable(*old(conn)),
        conn_closed(*old(conn)) ==> conn_closed(*final(conn)),
{
}

/// A packet is sent while packets come, and nothing else is; the first answer
/// that is none ends it, and an error, and only an error, is reported.
pub proof fn lemma_flush_step(outcome: PacketOutcome, step: FlushStep)
    requires
        call_ensures(flush_step, (outcome,), step),
    ensures
        step is Send <==> outcome is Packet,
        outcome matches PacketOutcome::Packet { len, info } ==> {
            &&& step->len == len
            &&& step->info == info
        },
        outcome is Idle ==> step->report is None,
        outcome matches PacketOutcome::Failed(error) ==> step->report == Some(error),
{
}

/// A client goes on with its first packet, and with nothing else; the error that
/// it fails with is the connection's, where it has one.
pub proof fn lemma_first_packet(outcome: PacketOutcome, first: FirstPacket)
    requires
        call_ensures(first_packet, (outcome,), first),
    ensures
        first is Send <==> outcome is Packet,
        outcome matches PacketOutcome::Packet { len, info } ==> {
            &&& first->len == len
            &&& first->info == info
        },
        outcome is Idle ==> first->error is None,
        outcome matches PacketOutcome::Failed(error) ==> first->error == Some(error),
{
}

/// The time that a connection names is the one that
/// `quiche::Connection::timeout` gave; a closed connection names none.
pub proof fn lemma_connection_timeout(conn: &quiche::Connection, timeout: Option<u128>)
    requires
        call_ensures(connection_timeout, (conn,), timeout),
    ensures
        names_timeout(*conn, timeout),
        conn_wakes(*conn) <==> timeout is Some,
        conn_closed(*conn) ==> timeout is None,
{
}

/// A timeout moves the timer to that long after now, whatever it was set to; no
/// timeout leaves it.
pub proof fn lemma_next_deadline(
    deadline: Option<u128>,
    now: u128,
    timeout: Option<u128>,
    next: Option<u128>,
)
    requires
        timeout matches Some(ns) ==> now + ns <= u128::MAX,
        call_ensures(next_deadline, (deadline, now, timeout), next),
    ensures
        timeout is None ==> next == deadline,
        timeout matches Some(ns) ==> next is Some && next->0 - now == ns,
{
}

/// Timers keep the order of time: asked later, or with a longer timeout, the
/// timer goes off no earlier.
pub proof fn lemma_deadlines_are_ordered(
    deadline: Option<u128>,
    earlier: u128,
    shorter: u128,
    first: Option<u128>,
    later: u128,
    longer: u128,
    second: Option<u128>,
)
    requires
        earlier <= later,
        shorter <= longer,
        later + longer <= u128::MAX,
        call_ensures(next_deadline, (deadline, earlier, Some(shorter)), first),
        call_ensures(next_deadline, (deadline, later, Some(longer)), second),
    ensures
        first is Some,
        second is Some,
        first->0 <= second->0,
        first == second <==> earlier == later && shorter == longer,
{
}

/// The timer is set to the time that the connection names, counted from now, and
/// is left where it names none.
pub proof fn lemma_rearm(
    conn: &quiche::Connection,
    deadline: Option<u128>,
    now: u128,
    next: Option<u128>,
)
    requires
        now <= crate::transport::MAX_DURATION_NS,
        call_ensures(rearm, (conn, deadline, now), next),
    ensures
        !conn_wakes(*conn) ==> next == deadline,
        conn_closed(*conn) ==> next == deadline,
        conn_wakes(*conn) ==> exists|ns: u128|
            {
                &&& #[trigger] names_timeout(*conn, Some(ns))
                &&& next is Some
                &&& next->0 - now == ns
            },
{
    let timeout = choose|timeout: Option<u128>|
        {
            &&& #[trigger] names_timeout(*conn, timeout)
            &&& next == (match timeout {
                Some(ns) => Some((now + ns) as u128),
                None => deadline,
            })
        };
    crate::transport::lemma_named_timeout(*conn, timeout);
    if conn_wakes(*conn) {
        assert(timeout == Some(timeout->0));
    }
}

/// A packet of no bytes has no header.
pub proof fn lemma_no_header(packet: &[u8], result: Result<PacketHeader, quiche::Error>)
    requires
        call_ensures(read_header, (packet,), result),
        packet@.len() == 0,
    ensures
        result is Err,
{
}

/// A first byte under 128 marks a short header, in which the twenty bytes behind
/// it are the destination; where they are not all there, there is no header.
pub proof fn lemma_short_header(packet: &[u8], result: Result<PacketHeader, quiche::Error>)
    requires
        call_ensures(read_header, (packet,), result),
        packet@.len() > 0,
        packet@[0] < 128,
    ensures
        result is Ok <==> packet@.len() >= 21,
        result matches Ok(header) ==> {
            &&& header.ty is Short
            &&& header.dcid@.len() == 20
            &&& forall|i: int| 0 <= i < 20 ==> #[trigger] header.dcid@[i] == packet@[1 + i]
        },
{
}

/// A first byte from 128 on marks a long header, which is never a short one. Its
/// type is in two bits of that byte, but for a version of zero; the destination
/// is behind its length, which is the sixth byte.
pub proof fn lemma_long_header(packet: &[u8], result: Result<PacketHeader, quiche::Error>)
    requires
        call_ensures(read_header, (packet,), result),
        packet@.len() > 0,
        packet@[0] >= 128,
    ensures
        packet@.len() < 7 ==> result is Err,
        result matches Ok(header) ==> {
            &&& header.dcid@.len() == packet@[5]
            &&& forall|i: int|
                0 <= i < packet@[5] ==> #[trigger] header.dcid@[i] == packet@[6 + i]
            &&& header.ty is VersionNegotiation <==> packet@.subrange(1, 5) == seq![
                0u8,
                0u8,
                0u8,
                0u8,
            ]
            &&& !(header.ty is VersionNegotiation) ==> {
                &&& header.ty is Initial <==> 128 <= packet@[0] < 144 || 192 <= packet@[0] < 208
                &&& header.ty is ZeroRtt <==> 144 <= packet@[0] < 160 || 208 <= packet@[0] < 224
                &&& header.ty is Handshake <==> 160 <= packet@[0] < 176 || 224 <= packet@[0] < 240
                &&& header.ty is Retry <==> 176 <= packet@[0] < 192 || 240 <= packet@[0]
            }
        },
{
    if result is Ok {
        let version = packet@.subrange(1, 5);
        assert(version[0] == packet@[1] && version[1] == packet@[2] && version[2] == packet@[3]
            && version[3] == packet@[4]);
        if packet@[1] == 0 && packet@[2] == 0 && packet@[3] == 0 && packet@[4] == 0 {
            assert(version =~= seq![0u8, 0u8, 0u8, 0u8]);
        }
    }
}

/// Two packets with the same bytes have the same header, or the same error.
pub proof fn lemma_header_is_in_the_bytes(
    a: &[u8],
    b: &[u8],
    of_a: Result<PacketHeader, quiche::Error>,
    of_b: Result<PacketHeader, quiche::Error>,
)
    requires
        call_ensures(read_header, (a,), of_a),
        call_ensures(read_header, (b,), of_b),
        a@ == b@,
    ensures
        of_a is Ok <==> of_b is Ok,
        of_a is Ok ==> of_a->Ok_0.ty == of_b->Ok_0.ty && of_a->Ok_0.dcid@ == of_b->Ok_0.dcid@,
        of_a is Err ==> of_a->Err_0 == of_b->Err_0,
{
}

/// An identifier is the bytes that were filled in, unchanged, and there is one
/// exactly where they could be filled.
pub proof fn lemma_filled_id(
    filled: Result<(), ring::error::Unspecified>,
    id: Vec<u8>,
    result: Result<Vec<u8>, NoRandomness>,
)
    requires
        call_ensures(filled_id, (filled, id), result),
    ensures
        filled is Ok <==> result is Ok,
        result matches Ok(kept) ==> kept == id,
{
}

/// An identifier is twenty bytes, all of which the operating system filled in;
/// there is one exactly where it did.
pub proof fn lemma_random_conn_id(result: Result<Vec<u8>, NoRandomness>)
    requires
        call_ensures(random_conn_id, (), result),
    ensures
        exists|dest: &mut Vec<u8>, filled: Result<(), ring::error::Unspecified>|
            {
                &&& #[trigger] fills(dest, filled)
                &&& (*dest)@.len() == 20
                &&& filled is Ok <==> result is Ok
                &&& result matches Ok(id) ==> id == *final(dest)
            },
        result matches Ok(id) ==> id@.len() == 20,
{
}

} // verus!
