//! What the bench asks of a QUIC connection.
//!
//! A connection does no I/O of its own: packets are handed to it and taken
//! from it. What a connection answers depends on what its peer sent and on the
//! clock. An answer that can be read off the connection has a name here, which
//! contracts speak of; the decisions that follow from an answer are functions
//! of their own.

use vstd::prelude::*;

verus! {

/// `quiche::Connection`: one end of a QUIC connection.
#[verifier::external_type_specification]
#[verifier::external_body]
pub struct ExConnection(quiche::Connection);

/// `quiche::RecvInfo`: the addresses of an incoming packet.
#[verifier::external_type_specification]
#[verifier::external_body]
pub struct ExRecvInfo(quiche::RecvInfo);

/// `quiche::SendInfo`: the addresses of an outgoing packet and its time.
#[verifier::external_type_specification]
#[verifier::external_body]
pub struct ExSendInfo(quiche::SendInfo);

/// What came of writing to a stream.
#[derive(Clone, Copy, Debug)]
pub enum SendOutcome {
    /// So many bytes were taken, from the front.
    Written(usize),
    /// There is no room now.
    Blocked,
    Failed(quiche::Error),
}

/// What came of reading from a stream.
#[derive(Clone, Copy, Debug)]
pub enum ReadOutcome {
    /// So many bytes were read; `fin` tells whether they are the last ones.
    Data { read: usize, fin: bool },
    /// There is nothing to read now.
    Blocked,
    Failed(quiche::Error),
}

/// What came of asking a connection for a packet to send.
#[derive(Clone, Copy, Debug)]
pub enum PacketOutcome {
    /// A packet of `len` bytes is to be sent.
    Packet { len: usize, info: quiche::SendInfo },
    /// There is nothing to send now.
    Idle,
    Failed(quiche::Error),
}

impl SendOutcome {
    /// An answer to an offer of `len` bytes: no more is taken than was
    /// offered, and taking nothing of something is no success.
    pub open spec fn answers(self, len: nat) -> bool {
        self matches SendOutcome::Written(n) ==> n <= len && (n == 0 ==> len == 0)
    }
}

impl ReadOutcome {
    /// An answer to a request for at most `len` bytes.
    pub open spec fn answers(self, len: nat) -> bool {
        self matches ReadOutcome::Data { read, fin } ==> read <= len
    }

    /// How many bytes were read.
    pub open spec fn len(self) -> int {
        match self {
            ReadOutcome::Data { read, fin } => read as int,
            _ => 0,
        }
    }
}

impl PacketOutcome {
    /// An answer to a request for a packet of at most `len` bytes.
    pub open spec fn answers(self, len: nat) -> bool {
        self matches PacketOutcome::Packet { len: n, info } ==> 0 < n <= len
    }
}

/// What `quiche::Connection::is_established` answers.
pub uninterp spec fn conn_established(conn: quiche::Connection) -> bool;

/// What `quiche::Connection::is_closed` answers.
pub uninterp spec fn conn_closed(conn: quiche::Connection) -> bool;

/// What `quiche::Connection::stream_capacity` answers.
pub uninterp spec fn conn_capacity(conn: quiche::Connection, stream_id: u64) -> Result<
    usize,
    quiche::Error,
>;

/// Whether `quiche::Connection::timeout` answers with a time: the connection
/// has a timer that is set.
pub uninterp spec fn conn_wakes(conn: quiche::Connection) -> bool;

/// The streams that `quiche::Connection::readable` walks, in order.
pub uninterp spec fn conn_readable(conn: quiche::Connection) -> Seq<u64>;

/// What `quiche::Connection::stream_send` answers, and the connection
/// afterwards.
pub uninterp spec fn conn_sent(
    conn: quiche::Connection,
    stream_id: u64,
    data: Seq<u8>,
    fin: bool,
) -> (SendOutcome, quiche::Connection);

/// What `quiche::Connection::stream_recv` answers where there is room for
/// `room` bytes, the bytes that it reads, and the connection afterwards.
pub uninterp spec fn conn_read(conn: quiche::Connection, stream_id: u64, room: nat) -> (
    ReadOutcome,
    Seq<u8>,
    quiche::Connection,
);

/// What `quiche::Connection::close` answers, and the connection afterwards.
pub uninterp spec fn conn_close(
    conn: quiche::Connection,
    app: bool,
    err: u64,
    reason: Seq<u8>,
) -> (Result<(), quiche::Error>, quiche::Connection);

/// `quiche::Connection::is_established` reads a flag of the connection, and
/// the answer is named. When the flag is set is up to the peer.
pub assume_specification[ quiche::Connection::is_established ](conn: &quiche::Connection) -> (r:
    bool)
    ensures
        r == conn_established(*conn),
;

/// `quiche::Connection::is_closed` reads a flag of the connection, and the
/// answer is named. When the flag is set is up to the peer and the clock.
pub assume_specification[ quiche::Connection::is_closed ](conn: &quiche::Connection) -> (r: bool)
    ensures
        r == conn_closed(*conn),
;

/// `quiche::Connection::stream_capacity` tells how much a stream would take
/// now. It reads the connection alone, and the answer is named.
pub assume_specification[ quiche::Connection::stream_capacity ](
    conn: &quiche::Connection,
    stream_id: u64,
) -> (result: Result<usize, quiche::Error>)
    ensures
        result == conn_capacity(*conn, stream_id),
;

/// `quiche::Connection::recv` takes in an incoming packet. Where it succeeds,
/// it has taken in all bytes, and there was at least one: a packet of no bytes
/// is refused, and the connection stays as it is. A connection that is closed
/// stays closed, and lets every other packet pass without looking into it.
/// Otherwise it is up to keys and the clock whether it succeeds and what the
/// connection becomes, and the bytes may be decrypted in place; nothing is
/// stated of these.
pub assume_specification[ quiche::Connection::recv ](
    conn: &mut quiche::Connection,
    buf: &mut [u8],
    info: quiche::RecvInfo,
) -> (result: Result<usize, quiche::Error>)
    ensures
        result matches Ok(n) ==> n == old(buf)@.len() && n > 0,
        final(buf)@.len() == old(buf)@.len(),
        old(buf)@.len() == 0 ==> *final(conn) == *old(conn),
        conn_closed(*old(conn)) ==> conn_closed(*final(conn)) && final(buf)@ == old(buf)@,
        conn_closed(*old(conn)) && old(buf)@.len() > 0 ==> result is Ok,
;

/// `quiche::Connection::on_timeout` looks after the timers that went off. That
/// establishes no connection and brings no data, and a connection that is closed
/// stays closed. Which timers went off, and so what becomes of the connection
/// otherwise, is up to the clock, and not stated.
pub assume_specification[ quiche::Connection::on_timeout ](conn: &mut quiche::Connection)
    ensures
        conn_established(*final(conn)) == conn_established(*old(conn)),
        conn_readable(*final(conn)) == conn_readable(*old(conn)),
        conn_closed(*old(conn)) ==> conn_closed(*final(conn)),
;

/// `quiche::Connection::close` starts to close the connection. Whether it was
/// open is for the connection to know; the answer and the connection that is
/// left depend on the connection and the arguments, and are named.
pub assume_specification[ quiche::Connection::close ](
    conn: &mut quiche::Connection,
    app: bool,
    err: u64,
    reason: &[u8],
) -> (result: Result<(), quiche::Error>)
    ensures
        (result, *final(conn)) == conn_close(*old(conn), app, err, reason@),
;

/// Calls `quiche::Connection::stream_send`. The answer and the connection that
/// is left depend on the connection and on what is offered, not on the clock,
/// and are named. No more is taken than was offered, and taking nothing is a
/// success only where nothing was offered.
#[verifier::external_body]
pub(crate) fn stream_send(
    conn: &mut quiche::Connection,
    stream_id: u64,
    data: &[u8],
    fin: bool,
) -> (outcome: SendOutcome)
    ensures
        (outcome, *final(conn)) == conn_sent(*old(conn), stream_id, data@, fin),
        outcome.answers(data@.len()),
{
    match conn.stream_send(stream_id, data, fin) {
        Ok(written) => SendOutcome::Written(written),
        Err(quiche::Error::Done) => SendOutcome::Blocked,
        Err(error) => SendOutcome::Failed(error),
    }
}

/// Calls `quiche::Connection::stream_recv`. The answer, the bytes and the
/// connection that is left depend on the connection and on the room in `out`,
/// not on the clock, and are named. The bytes go to the front of `out`; what is
/// behind them stays, and so does all of `out` where nothing is read.
#[verifier::external_body]
pub(crate) fn stream_recv(
    conn: &mut quiche::Connection,
    stream_id: u64,
    out: &mut Vec<u8>,
) -> (outcome: ReadOutcome)
    ensures
        outcome == conn_read(*old(conn), stream_id, old(out)@.len()).0,
        *final(conn) == conn_read(*old(conn), stream_id, old(out)@.len()).2,
        outcome.answers(old(out)@.len()),
        outcome matches ReadOutcome::Data { read, fin } ==> {
            let bytes = conn_read(*old(conn), stream_id, old(out)@.len()).1;
            bytes.len() == read && final(out)@ == bytes + old(out)@.skip(read as int)
        },
        !(outcome is Data) ==> final(out)@ == old(out)@,
{
    match conn.stream_recv(stream_id, out) {
        Ok((read, fin)) => ReadOutcome::Data { read, fin },
        Err(quiche::Error::Done) => ReadOutcome::Blocked,
        Err(error) => ReadOutcome::Failed(error),
    }
}

/// Calls `quiche::Connection::send`. A packet that comes out has at least one
/// byte and fits into `out`. Where there is no room at all the call fails, and
/// a connection that is closed has nothing to send; in both cases nothing
/// changes. Otherwise it depends on the clock and on chance too whether a
/// packet comes out, what is in it and what the connection becomes, and is not
/// stated.
#[verifier::external_body]
fn send_packet(conn: &mut quiche::Connection, out: &mut [u8]) -> (outcome: PacketOutcome)
    ensures
        outcome.answers(old(out)@.len()),
        final(out)@.len() == old(out)@.len(),
        old(out)@.len() == 0 ==> outcome is Failed && *final(conn) == *old(conn),
        conn_closed(*old(conn)) && old(out)@.len() > 0 ==> outcome is Idle && *final(conn)
            == *old(conn) && final(out)@ == old(out)@,
{
    match conn.send(out) {
        Ok((len, info)) => PacketOutcome::Packet { len, info },
        Err(quiche::Error::Done) => PacketOutcome::Idle,
        Err(error) => PacketOutcome::Failed(error),
    }
}

/// Calls `quiche::Connection::readable` and lists the streams that it walks.
/// They depend on the connection alone, and are named.
#[verifier::external_body]
pub(crate) fn readable(conn: &quiche::Connection) -> (streams: Vec<u64>)
    ensures
        streams@ == conn_readable(*conn),
{
    conn.readable().collect()
}

/// The longest time that a clock's duration can hold, in nanoseconds.
pub const MAX_DURATION_NS: u128 = 18_446_744_073_709_551_615_999_999_999;

/// Calls `quiche::Connection::timeout` and gives the time in nanoseconds,
/// which a duration holds. Whether there is a time depends on the connection
/// alone and is named; a connection that is closed has none. How long it is
/// depends on the clock, and is not stated.
#[verifier::external_body]
fn timeout_ns(conn: &quiche::Connection) -> (timeout: Option<u128>)
    ensures
        timeout is Some <==> conn_wakes(*conn),
        conn_closed(*conn) ==> timeout is None,
        timeout matches Some(ns) ==> ns <= MAX_DURATION_NS,
{
    conn.timeout().map(|timeout| timeout.as_nanos())
}

/// `outcome` is an answer of `quiche::Connection::send` to this connection and
/// this room.
pub closed spec fn sends(
    conn: &mut quiche::Connection,
    out: &mut [u8],
    outcome: PacketOutcome,
) -> bool {
    call_ensures(send_packet, (conn, out), outcome)
}

/// `timeout` is an answer of `quiche::Connection::timeout` to this connection.
pub closed spec fn names_timeout(conn: quiche::Connection, timeout: Option<u128>) -> bool {
    call_ensures(timeout_ns, (&conn,), timeout)
}

/// There is a time among the answers exactly where a timer is set.
pub proof fn lemma_named_timeout(conn: quiche::Connection, timeout: Option<u128>)
    requires
        names_timeout(conn, timeout),
    ensures
        timeout is Some <==> conn_wakes(conn),
        conn_closed(conn) ==> timeout is None,
        timeout matches Some(ns) ==> ns <= MAX_DURATION_NS,
{
}

/// The next packet that the connection wants to send, written to the front of
/// `out`. A connection that is closed wants to send none.
pub fn next_packet(conn: &mut quiche::Connection, out: &mut [u8]) -> (outcome: PacketOutcome)
    ensures
        outcome.answers(old(out)@.len()),
        final(out)@.len() == old(out)@.len(),
        old(out)@.len() == 0 ==> outcome is Failed && *final(conn) == *old(conn),
        conn_closed(*old(conn)) && old(out)@.len() > 0 ==> outcome is Idle && *final(conn)
            == *old(conn) && final(out)@ == old(out)@,
        exists|c: &mut quiche::Connection, o: &mut [u8]|
            {
                &&& #[trigger] sends(c, o, outcome)
                &&& *c == *old(conn)
                &&& *final(c) == *final(conn)
                &&& (*o)@ == old(out)@
                &&& (*final(o))@ == final(out)@
            },
{
    let send = send_packet;
    let outcome = send(conn, out);
    assert forall|c: &mut quiche::Connection, o: &mut [u8]|
        #[trigger] call_ensures(send_packet, (c, o), outcome) implies sends(c, o, outcome) by {}
    outcome
}

/// What is to be done while outgoing packets are flushed.
#[derive(Clone, Copy, Debug)]
pub enum FlushStep {
    /// Send the packet, and ask for the next one.
    Send { len: usize, info: quiche::SendInfo },
    /// There is no more to send. An error is to be reported, where there is one.
    Stop { report: Option<quiche::Error> },
}

/// Decides how flushing goes on: as long as packets come.
pub fn flush_step(outcome: PacketOutcome) -> (step: FlushStep)
    ensures
        step == (match outcome {
            PacketOutcome::Packet { len, info } => FlushStep::Send { len, info },
            PacketOutcome::Idle => FlushStep::Stop { report: None },
            PacketOutcome::Failed(error) => FlushStep::Stop { report: Some(error) },
        }),
{
    match outcome {
        PacketOutcome::Packet { len, info } => FlushStep::Send { len, info },
        PacketOutcome::Idle => FlushStep::Stop { report: None },
        PacketOutcome::Failed(error) => FlushStep::Stop { report: Some(error) },
    }
}

/// What is to be done about the packet that a client starts its handshake with.
#[derive(Clone, Copy, Debug)]
pub enum FirstPacket {
    Send { len: usize, info: quiche::SendInfo },
    /// There is none, so there is no handshake: the client fails.
    Missing { error: Option<quiche::Error> },
}

/// Decides on the first packet: a client that has none fails, whether its
/// connection failed or had just nothing to send.
pub fn first_packet(outcome: PacketOutcome) -> (first: FirstPacket)
    ensures
        first == (match outcome {
            PacketOutcome::Packet { len, info } => FirstPacket::Send { len, info },
            PacketOutcome::Idle => FirstPacket::Missing { error: None },
            PacketOutcome::Failed(error) => FirstPacket::Missing { error: Some(error) },
        }),
{
    match outcome {
        PacketOutcome::Packet { len, info } => FirstPacket::Send { len, info },
        PacketOutcome::Idle => FirstPacket::Missing { error: None },
        PacketOutcome::Failed(error) => FirstPacket::Missing { error: Some(error) },
    }
}

/// Hands an incoming packet to the connection, whole. A packet of no bytes is
/// refused; a connection that is closed lets every other one pass, unread, and
/// stays closed.
pub fn deliver(conn: &mut quiche::Connection, packet: &mut [u8], info: quiche::RecvInfo) -> (result:
    Result<usize, quiche::Error>)
    ensures
        result matches Ok(read) ==> read == old(packet)@.len() && read > 0,
        final(packet)@.len() == old(packet)@.len(),
        old(packet)@.len() == 0 ==> result is Err && *final(conn) == *old(conn),
        conn_closed(*old(conn)) ==> conn_closed(*final(conn)) && final(packet)@ == old(packet)@,
        conn_closed(*old(conn)) && old(packet)@.len() > 0 ==> result is Ok,
        exists|c: &mut quiche::Connection, p: &mut [u8]|
            {
                &&& #[trigger] call_ensures(quiche::Connection::recv, (c, p, info), result)
                &&& *c == *old(conn)
                &&& *final(c) == *final(conn)
                &&& (*p)@ == old(packet)@
                &&& (*final(p))@ == final(packet)@
            },
{
    let recv = quiche::Connection::recv;
    recv(conn, packet, info)
}

/// Lets the connection look after its timers, when the time that it named is
/// over. It may close then, and is neither established nor given data by it.
pub fn wake(conn: &mut quiche::Connection)
    ensures
        conn_established(*final(conn)) == conn_established(*old(conn)),
        conn_readable(*final(conn)) == conn_readable(*old(conn)),
        conn_closed(*old(conn)) ==> conn_closed(*final(conn)),
        exists|c: &mut quiche::Connection|
            {
                &&& #[trigger] call_ensures(quiche::Connection::on_timeout, (c,), ())
                &&& *c == *old(conn)
                &&& *final(c) == *final(conn)
            },
{
    let on_timeout = quiche::Connection::on_timeout;
    on_timeout(conn)
}

/// How many nanoseconds the connection can be left alone for, if it tells: that
/// it does exactly where a timer of it is set, and never where it is closed.
pub fn connection_timeout(conn: &quiche::Connection) -> (timeout: Option<u128>)
    ensures
        timeout is Some <==> conn_wakes(*conn),
        conn_closed(*conn) ==> timeout is None,
        timeout matches Some(ns) ==> ns <= MAX_DURATION_NS,
        names_timeout(*conn, timeout),
{
    let ask = timeout_ns;
    ask(conn)
}

/// The time at which a timer goes off, in nanoseconds on the clock that `now`
/// is read from. A connection that names no timeout leaves the timer alone.
pub fn next_deadline(deadline: Option<u128>, now: u128, timeout: Option<u128>) -> (next: Option<
    u128,
>)
    requires
        timeout matches Some(ns) ==> now + ns <= u128::MAX,
    ensures
        next == (match timeout {
            Some(ns) => Some((now + ns) as u128),
            None => deadline,
        }),
{
    match timeout {
        Some(ns) => Some(now + ns),
        None => deadline,
    }
}

/// Sets the timer to the time at which the connection wants to be woken up. A
/// connection without a timer of its own, as a closed one is, leaves it alone.
pub fn rearm(conn: &quiche::Connection, deadline: Option<u128>, now: u128) -> (next: Option<u128>)
    requires
        now <= MAX_DURATION_NS,
    ensures
        conn_wakes(*conn) ==> (next matches Some(at) && now <= at <= now + MAX_DURATION_NS),
        !conn_wakes(*conn) ==> next == deadline,
        conn_closed(*conn) ==> next == deadline,
        exists|timeout: Option<u128>|
            {
                &&& #[trigger] names_timeout(*conn, timeout)
                &&& next == (match timeout {
                    Some(ns) => Some((now + ns) as u128),
                    None => deadline,
                })
            },
{
    let timeout = connection_timeout(conn);
    next_deadline(deadline, now, timeout)
}

} // verus!
