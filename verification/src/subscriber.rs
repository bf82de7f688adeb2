//! The subscriber: it takes one connection and measures the blocks on it.

use vstd::prelude::*;
use vstd::slice::slice_subrange;

use crate::aggregator::{
    blocks_fed, blocks_of, joined, lemma_any_pieces, lemma_blocks_of_joined,
    lemma_blocks_of_prefix, rest_fed, rest_of, views, BlockAggregator,
};
use crate::block::{lemma_block_round_trip, sent_ms_of, BlockFormat, HEADER_LEN};
use crate::packet::{
    header_fields, header_of, read_header, PacketHeader, PacketType, MAX_CONN_ID_LEN,
};
use crate::publisher::{blocks_at, lemma_stream_is_blocks, Event, State};
use crate::transport::{
    conn_closed, conn_established, conn_read, conn_readable, conn_wakes, names_timeout, readable, rearm,
    stream_recv, ReadOutcome, MAX_DURATION_NS,
};

verus! {

/// What is to be done with an incoming packet.
#[derive(Clone, Copy, Debug)]
pub enum Route {
    /// The packet has no header that can be read; the subscriber stops.
    Malformed(quiche::Error),
    /// The packet goes to the connection.
    Deliver,
    /// The packet opens the connection.
    Accept,
    /// The packet is dropped.
    Ignore,
}

/// What is to be done with a packet whose header has, or lacks, this type.
pub open spec fn routed(connected: bool, ty: Option<PacketType>, route: Route) -> bool {
    match ty {
        None => route is Malformed,
        Some(ty) => route == if connected {
            Route::Deliver
        } else if ty == PacketType::Initial {
            Route::Accept
        } else {
            Route::Ignore
        },
    }
}

/// The type in a header, where there is a header.
pub open spec fn type_of(header: Option<(PacketType, Seq<u8>)>) -> Option<PacketType> {
    match header {
        Some((ty, _)) => Some(ty),
        None => None,
    }
}

/// Decides on a packet by its header: a subscriber that has a connection gives
/// it every packet, and one that has none opens it with an Initial packet.
pub fn route_header(connected: bool, header: &Result<PacketHeader, quiche::Error>) -> (route: Route)
    ensures
        header matches Ok(h) ==> routed(connected, Some(h.ty), route),
        header matches Err(error) ==> route == Route::Malformed(*error),
{
    match header {
        Err(error) => Route::Malformed(*error),
        Ok(header) => if connected {
            Route::Deliver
        } else {
            match header.ty {
                PacketType::Initial => Route::Accept,
                _ => Route::Ignore,
            }
        },
    }
}

/// Decides on an incoming packet.
pub fn route_packet(connected: bool, packet: &[u8]) -> (route: Route)
    ensures
        routed(connected, type_of(header_fields(packet@, MAX_CONN_ID_LEN as nat)), route),
        header_of(packet@, MAX_CONN_ID_LEN as nat) matches Err(error) ==> route
            == Route::Malformed(error),
{
    let header = read_header(packet);
    route_header(connected, &header)
}

/// What came out of a look at the connection's streams.
pub enum Inbound {
    /// Nothing that matters.
    Nothing,
    /// Data arrived; these blocks are whole now.
    Blocks(Vec<Vec<u8>>),
    /// The stream has no data after all; let others run.
    Yield,
    Failed(quiche::Error),
}

/// Collects blocks and keeps the connection's timer.
pub struct Subscriber {
    aggregator: BlockAggregator,
    deadline: Option<u128>,
}

impl Subscriber {
    pub closed spec fn wf(self) -> bool {
        self.aggregator.wf()
    }

    pub closed spec fn format(self) -> BlockFormat {
        self.aggregator.format()
    }

    /// The bytes that were taken in since the last whole block.
    pub closed spec fn pending(self) -> Seq<u8> {
        self.aggregator.pending()
    }

    /// When the timer goes off, in nanoseconds.
    pub closed spec fn spec_deadline(self) -> Option<u128> {
        self.deadline
    }

    /// How much is read at a time.
    pub open spec fn spec_read_size(self) -> nat {
        2 * self.format().spec_block_size()
    }

    /// What reading a stream comes to: `outcome` is the answer, `bytes` is what
    /// was read, `next` is the subscriber afterwards.
    pub open spec fn takes(
        self,
        outcome: ReadOutcome,
        bytes: Seq<u8>,
        next: Subscriber,
        inbound: Inbound,
    ) -> bool {
        let size = self.format().spec_block_size();
        match outcome {
            ReadOutcome::Data { read, fin } => if read > 0 {
                &&& inbound matches Inbound::Blocks(blocks) && views(blocks@) == blocks_of(
                    self.pending() + bytes,
                    size,
                )
                &&& next.pending() == rest_of(self.pending() + bytes, size)
            } else {
                inbound is Nothing && next.pending() == self.pending()
            },
            ReadOutcome::Blocked => inbound is Yield && next.pending() == self.pending(),
            ReadOutcome::Failed(error) => {
                inbound == Inbound::Failed(error) && next.pending() == self.pending()
            },
        }
    }

    /// The subscriber in front of its first packet.
    pub fn new(format: BlockFormat) -> (subscriber: Subscriber)
        ensures
            subscriber.wf(),
            subscriber.format() == format,
            subscriber.pending() == Seq::<u8>::empty(),
            subscriber.spec_deadline() is None,
    {
        Subscriber { aggregator: BlockAggregator::new(format), deadline: None }
    }

    pub fn deadline(&self) -> (deadline: Option<u128>)
        ensures
            deadline == self.spec_deadline(),
    {
        self.deadline
    }

    /// How many bytes to read from a stream at a time: two blocks.
    pub fn read_size(&self) -> (size: usize)
        ensures
            size == self.spec_read_size(),
    {
        self.aggregator.read_size()
    }

    /// Takes in the answer to reading a stream into `buf`.
    pub fn take(&mut self, outcome: ReadOutcome, buf: &[u8]) -> (inbound: Inbound)
        requires
            old(self).wf(),
            buf@.len() == old(self).spec_read_size(),
            outcome.answers(buf@.len()),
        ensures
            final(self).wf(),
            final(self).format() == old(self).format(),
            final(self).spec_deadline() == old(self).spec_deadline(),
            old(self).takes(outcome, buf@.take(outcome.len()), *final(self), inbound),
    {
        match outcome {
            ReadOutcome::Data { read, fin } => {
                if read > 0 {
                    let data = slice_subrange(buf, 0, read);
                    assert(data@ =~= buf@.take(outcome.len()));
                    Inbound::Blocks(self.aggregator.ingest(data))
                } else {
                    Inbound::Nothing
                }
            },
            ReadOutcome::Blocked => Inbound::Yield,
            ReadOutcome::Failed(error) => Inbound::Failed(error),
        }
    }

    /// Reads the first stream of an established connection that has data.
    pub fn poll_stream(&mut self, conn: &mut quiche::Connection) -> (inbound: Inbound)
        requires
            old(self).wf(),
        ensures
            final(self).wf(),
            final(self).format() == old(self).format(),
            final(self).spec_deadline() == old(self).spec_deadline(),
            conn_established(*old(conn)) && conn_readable(*old(conn)).len() > 0 ==> {
                let answer = conn_read(
                    *old(conn),
                    conn_readable(*old(conn))[0],
                    old(self).spec_read_size(),
                );
                old(self).takes(answer.0, answer.1, *final(self), inbound) && *final(conn)
                    == answer.2
            },
            !(conn_established(*old(conn)) && conn_readable(*old(conn)).len() > 0) ==> {
                &&& inbound is Nothing
                &&& final(self).pending() == old(self).pending()
                &&& *final(conn) == *old(conn)
            },
    {
        if !conn.is_established() {
            return Inbound::Nothing;
        }
        let streams = readable(conn);
        if streams.len() == 0 {
            return Inbound::Nothing;
        }
        let mut buf: Vec<u8> = vec![0; self.read_size()];
        let outcome = stream_recv(conn, streams[0], &mut buf);
        let ghost bytes = conn_read(*old(conn), streams@[0], old(self).spec_read_size()).1;
        let inbound = self.take(outcome, buf.as_slice());
        assert(outcome is Data ==> buf@.take(outcome.len()) =~= bytes);
        inbound
    }

    /// Sets the timer to the time at which the connection wants to be woken up;
    /// where it names none, as a closed one does, the timer stays.
    pub fn rearm(&mut self, conn: &quiche::Connection, now: u128)
        requires
            old(self).wf(),
            now <= MAX_DURATION_NS,
        ensures
            final(self).wf(),
            final(self).format() == old(self).format(),
            final(self).pending() == old(self).pending(),
            conn_wakes(*conn) ==> (final(self).spec_deadline() matches Some(at) && now <= at <= now
                + MAX_DURATION_NS),
            !conn_wakes(*conn) ==> final(self).spec_deadline() == old(self).spec_deadline(),
            conn_closed(*conn) ==> final(self).spec_deadline() == old(self).spec_deadline(),
            exists|timeout: Option<u128>|
                {
                    &&& #[trigger] names_timeout(*conn, timeout)
                    &&& final(self).spec_deadline() == (match timeout {
                        Some(ns) => Some((now + ns) as u128),
                        None => old(self).spec_deadline(),
                    })
                },
    {
        self.deadline = rearm(conn, self.deadline, now);
    }
}

/// A subscriber serves one connection: once it has it, no packet opens another.
pub proof fn lemma_one_connection(ty: Option<PacketType>, route: Route)
    requires
        routed(true, ty, route),
    ensures
        !(route is Accept),
        ty is Some ==> route is Deliver,
{
}

/// What a subscriber gets is what the publisher sent. However the stream of a
/// publisher is cut into pieces, and however much of it has arrived: the blocks
/// that come out are the first ones that the publisher started, whole and in
/// order; none is faulty to a clock that is not behind the publisher's, and
/// each carries the time at which it was started.
pub proof fn lemma_received_is_sent(format: BlockFormat, events: Seq<Event>, pieces: Seq<Seq<u8>>)
    requires
        HEADER_LEN <= format.spec_block_size(),
        State::first(format).possible(format, events),
        joined(pieces).is_prefix_of(State::first(format).stream(format, events)),
    ensures
        ({
            let size = format.spec_block_size();
            let times = State::first(format).started(format, events);
            let count = joined(pieces).len() / size;
            let received = blocks_fed(Seq::empty(), pieces, size);
            &&& count <= times.len()
            &&& received == blocks_at(format, times.take(count as int))
            &&& forall|i: int, now_ms: u64|
                #![trigger received[i], format.fault_of(received[i], now_ms)]
                0 <= i < count && times[i] <= now_ms ==> {
                    &&& format.fault_of(received[i], now_ms) is None
                    &&& sent_ms_of(received[i]) == times[i]
                }
        }),
{
    let first = State::first(format);
    let size = format.spec_block_size();
    let times = first.started(format, events);
    let stream = first.stream(format, events);
    let sent = joined(pieces);
    let count = sent.len() / size;
    let received = blocks_fed(Seq::empty(), pieces, size);
    let blocks = blocks_at(format, times);
    lemma_stream_is_blocks(format, events);
    assert forall|i: int| 0 <= i < blocks.len() implies (#[trigger] blocks[i]).len() == size by {
        lemma_block_round_trip(format, times[i], times[i]);
    }
    lemma_blocks_of_joined(blocks, size);
    let all = joined(blocks);
    assert(stream.is_prefix_of(all)) by {
        if times.len() > 0 {
            let state = first.run(format, events);
            assert(blocks.drop_last() =~= blocks_at(format, times.drop_last()));
            assert(blocks.last() == state.message);
            assert(stream =~= all.take(stream.len() as int));
        } else {
            assert(stream =~= all.take(0));
        }
    }
    assert(sent =~= all.take(sent.len() as int));
    lemma_any_pieces(Seq::empty(), pieces, size);
    assert(Seq::<u8>::empty() + sent =~= sent);
    lemma_blocks_of_prefix(all, sent.len(), size);
    assert(all.len() / size == blocks.len());
    assert(received =~= blocks_at(format, times.take(count as int)));
    assert forall|i: int, now_ms: u64|
        #![trigger received[i], format.fault_of(received[i], now_ms)]
        0 <= i < count && times[i] <= now_ms implies {
        &&& format.fault_of(received[i], now_ms) is None
        &&& sent_ms_of(received[i]) == times[i]
    } by {
        lemma_block_round_trip(format, times[i], now_ms);
        assert(received[i] == format.block(times[i]));
    }
}

/// One read of a stream: the answer, the bytes, and what the subscriber made of
/// them.
pub struct Reading {
    pub outcome: ReadOutcome,
    pub bytes: Seq<u8>,
    pub inbound: Inbound,
}

impl Reading {
    /// The read brought bytes.
    pub open spec fn brings(self) -> bool {
        self.outcome matches ReadOutcome::Data { read, .. } && read > 0
    }

    /// The blocks that were handed out.
    pub open spec fn blocks(self) -> Seq<Seq<u8>> {
        match self.inbound {
            Inbound::Blocks(blocks) => views(blocks@),
            _ => Seq::empty(),
        }
    }
}

/// The pieces that the reads brought, in order.
pub open spec fn pieces_read(readings: Seq<Reading>) -> Seq<Seq<u8>>
    decreases readings.len(),
{
    if readings.len() == 0 {
        Seq::empty()
    } else if readings.last().brings() {
        pieces_read(readings.drop_last()).push(readings.last().bytes)
    } else {
        pieces_read(readings.drop_last())
    }
}

/// The blocks that were handed out, in order.
pub open spec fn handed_out(readings: Seq<Reading>) -> Seq<Seq<u8>>
    decreases readings.len(),
{
    if readings.len() == 0 {
        Seq::empty()
    } else {
        handed_out(readings.drop_last()) + readings.last().blocks()
    }
}

/// The read is what one subscriber makes of it, and leads to the next.
pub open spec fn leads_on(before: Subscriber, reading: Reading, after: Subscriber) -> bool {
    &&& before.takes(reading.outcome, reading.bytes, after, reading.inbound)
    &&& after.format() == before.format()
}

/// The subscriber goes through the reads; `states` holds what it is in front of
/// each of them, and behind the last.
pub open spec fn reads_through(states: Seq<Subscriber>, readings: Seq<Reading>) -> bool {
    &&& states.len() == readings.len() + 1
    &&& forall|i: int|
        0 <= i < readings.len() ==> leads_on(states[i], #[trigger] readings[i], states[i + 1])
}

/// One more read hands out exactly the blocks that the bytes complete, and
/// leaves exactly the bytes behind them.
pub proof fn lemma_one_more_read(
    subscriber: Subscriber,
    pieces: Seq<Seq<u8>>,
    reading: Reading,
    next: Subscriber,
)
    requires
        subscriber.pending() == rest_fed(
            Seq::empty(),
            pieces,
            subscriber.format().spec_block_size(),
        ),
        subscriber.takes(reading.outcome, reading.bytes, next, reading.inbound),
    ensures
        ({
            let size = subscriber.format().spec_block_size();
            let more = if reading.brings() {
                pieces.push(reading.bytes)
            } else {
                pieces
            };
            &&& next.pending() == rest_fed(Seq::empty(), more, size)
            &&& blocks_fed(Seq::empty(), more, size) == blocks_fed(Seq::empty(), pieces, size)
                + reading.blocks()
        }),
{
    let size = subscriber.format().spec_block_size();
    if reading.brings() {
        assert(pieces.push(reading.bytes).drop_last() =~= pieces);
    } else {
        assert(blocks_fed(Seq::empty(), pieces, size) + reading.blocks() =~= blocks_fed(
            Seq::empty(),
            pieces,
            size,
        ));
    }
}

/// A new subscriber hands out, over any number of reads, exactly the blocks of
/// the pieces that it read.
pub proof fn lemma_reads_feed(states: Seq<Subscriber>, readings: Seq<Reading>)
    requires
        reads_through(states, readings),
        states[0].pending() == Seq::<u8>::empty(),
    ensures
        states.last().format() == states[0].format(),
        ({
            let size = states[0].format().spec_block_size();
            &&& states.last().pending() == rest_fed(Seq::empty(), pieces_read(readings), size)
            &&& handed_out(readings) == blocks_fed(Seq::empty(), pieces_read(readings), size)
        }),
    decreases readings.len(),
{
    if readings.len() > 0 {
        let earlier = readings.drop_last();
        let before = states.drop_last();
        assert forall|i: int| 0 <= i < earlier.len() implies leads_on(
            before[i],
            #[trigger] earlier[i],
            before[i + 1],
        ) by {
            assert(earlier[i] == readings[i]);
        }
        lemma_reads_feed(before, earlier);
        assert(leads_on(before.last(), readings[readings.len() - 1], states.last()));
        lemma_one_more_read(before.last(), pieces_read(earlier), readings.last(), states.last());
    }
}

/// What a new subscriber hands out is what the publisher sent: where the pieces
/// that it read are what has arrived of a publisher's stream, its blocks are the
/// first ones that the publisher started, whole and in order, and none is faulty
/// to a clock that is not behind the publisher's.
pub proof fn lemma_handed_out_is_sent(
    events: Seq<Event>,
    states: Seq<Subscriber>,
    readings: Seq<Reading>,
)
    requires
        HEADER_LEN <= states[0].format().spec_block_size(),
        State::first(states[0].format()).possible(states[0].format(), events),
        reads_through(states, readings),
        states[0].pending() == Seq::<u8>::empty(),
        joined(pieces_read(readings)).is_prefix_of(
            State::first(states[0].format()).stream(states[0].format(), events),
        ),
    ensures
        ({
            let format = states[0].format();
            let times = State::first(format).started(format, events);
            let blocks = handed_out(readings);
            &&& blocks.len() == joined(pieces_read(readings)).len() / format.spec_block_size()
            &&& blocks.len() <= times.len()
            &&& blocks == blocks_at(format, times.take(blocks.len() as int))
            &&& forall|i: int, now_ms: u64|
                #![trigger blocks[i], format.fault_of(blocks[i], now_ms)]
                0 <= i < blocks.len() && times[i] <= now_ms ==> {
                    &&& format.fault_of(blocks[i], now_ms) is None
                    &&& sent_ms_of(blocks[i]) == times[i]
                }
        }),
{
    lemma_reads_feed(states, readings);
    lemma_received_is_sent(states[0].format(), events, pieces_read(readings));
}

} // verus!
