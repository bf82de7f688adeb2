//! Blocks, and the subscriber that measures them.

use vstd::prelude::*;

use crate::aggregator::{joined, views, BlockAggregator};
use crate::block::{be_bytes, be_value, BlockFault, BlockFormat};
use crate::laws::publishing::is_block;
use crate::packet::{header_fields, header_of, PacketHeader, PacketType};
use crate::subscriber::{route_header, route_packet, Inbound, Route, Subscriber};
use crate::transport::{
    conn_established, conn_read, conn_readable, names_timeout, ReadOutcome,
};

verus! {

/// Eight bytes spell the number that their places give them.
pub proof fn lemma_network_byte_order(bytes: Seq<u8>)
    requires
        bytes.len() == 8,
    ensures
        be_value(bytes) == bytes[0] * 0x100_0000_0000_0000 + bytes[1] * 0x1_0000_0000_0000
            + bytes[2] * 0x100_0000_0000 + bytes[3] * 0x1_0000_0000 + bytes[4] * 0x100_0000
            + bytes[5] * 0x1_0000 + bytes[6] * 0x100 + bytes[7],
{
    assert forall|k: int| 0 < k <= 8 implies #[trigger] bytes.take(k).drop_last() == bytes.take(
        k - 1,
    ) by {
        assert(bytes.take(k).drop_last() =~= bytes.take(k - 1));
    }
    assert(bytes.take(8) =~= bytes);
    assert(be_value(bytes.take(0)) == 0);
    assert(be_value(bytes.take(1)) == bytes[0] as nat);
    assert(be_value(bytes.take(2)) == be_value(bytes.take(1)) * 256 + bytes[1] as nat);
    assert(be_value(bytes.take(3)) == be_value(bytes.take(2)) * 256 + bytes[2] as nat);
    assert(be_value(bytes.take(4)) == be_value(bytes.take(3)) * 256 + bytes[3] as nat);
    assert(be_value(bytes.take(5)) == be_value(bytes.take(4)) * 256 + bytes[4] as nat);
    assert(be_value(bytes.take(6)) == be_value(bytes.take(5)) * 256 + bytes[5] as nat);
    assert(be_value(bytes.take(7)) == be_value(bytes.take(6)) * 256 + bytes[6] as nat);
    assert(be_value(bytes.take(8)) == be_value(bytes.take(7)) * 256 + bytes[7] as nat);
}

/// Byte sequences joined are one behind the other.
pub proof fn lemma_joined_grows(blocks: Seq<Seq<u8>>, block: Seq<u8>)
    ensures
        joined(Seq::<Seq<u8>>::empty()) == Seq::<u8>::empty(),
        joined(blocks.push(block)) == joined(blocks) + block,
        joined(blocks.push(block)).len() == joined(blocks).len() + block.len(),
{
    assert(blocks.push(block).drop_last() =~= blocks);
}

/// A format is possible where a block has room for its header of sixteen bytes
/// and three blocks fit into one vector.
pub proof fn lemma_format(magic: u64, block_size: usize, format: Option<BlockFormat>)
    requires
        call_ensures(BlockFormat::new, (magic, block_size), format),
    ensures
        format is Some <==> (16 <= block_size && block_size <= usize::MAX / 6),
        format matches Some(f) ==> f.spec_magic() == magic && f.spec_block_size() == block_size,
{
}

/// A blank block is all filling.
pub proof fn lemma_blank(format: &BlockFormat, block: Vec<u8>)
    requires
        call_ensures(BlockFormat::blank, (format,), block),
    ensures
        block@.len() == format.spec_block_size(),
        forall|i: int| 0 <= i < block@.len() ==> #[trigger] block@[i] == 42,
{
}

/// Stamping writes the magic number and the time into the first sixteen bytes,
/// and changes no other.
pub proof fn lemma_stamp(format: &BlockFormat, block: &mut Vec<u8>, sent_ms: u64)
    requires
        call_ensures(BlockFormat::stamp, (format, block, sent_ms), ()),
        old(block)@.len() >= 16,
    ensures
        final(block)@.len() == old(block)@.len(),
        be_value(final(block)@.subrange(0, 8)) == format.spec_magic(),
        be_value(final(block)@.subrange(8, 16)) == sent_ms,
        forall|i: int|
            16 <= i < old(block)@.len() ==> #[trigger] final(block)@[i] == old(block)@[i],
{
    crate::block::lemma_be_round_trip(format.spec_magic());
    crate::block::lemma_be_round_trip(sent_ms);
    assert(final(block)@.subrange(0, 8) =~= be_bytes(format.spec_magic() as nat, 8));
    assert(final(block)@.subrange(8, 16) =~= be_bytes(sent_ms as nat, 8));
}

/// A block is faulty exactly where its first eight bytes do not spell the magic
/// number, or else the next eight a time that is still to come.
pub proof fn lemma_fault(
    format: &BlockFormat,
    block: &[u8],
    now_ms: u64,
    fault: Option<BlockFault>,
)
    requires
        call_ensures(BlockFormat::fault, (format, block, now_ms), fault),
        block@.len() >= 16,
    ensures
        ({
            let magic = be_value(block@.subrange(0, 8));
            let sent_ms = be_value(block@.subrange(8, 16));
            &&& fault is None <==> (magic == format.spec_magic() && sent_ms <= now_ms)
            &&& fault is Some ==> (fault->0 is WrongMagic <==> magic != format.spec_magic())
            &&& fault matches Some(BlockFault::WrongMagic { found }) ==> found == magic
            &&& fault matches Some(BlockFault::SentLater { sent_ms: at }) ==> at == sent_ms
        }),
{
    lemma_eight_bytes(block@.subrange(0, 8));
    lemma_eight_bytes(block@.subrange(8, 16));
}

proof fn lemma_eight_bytes(bytes: Seq<u8>)
    requires
        bytes.len() == 8,
    ensures
        be_value(bytes) <= u64::MAX,
{
    lemma_network_byte_order(bytes);
}

/// The latency of a block is what went by since its stamp; a block is measured
/// exactly where it is not faulty.
pub proof fn lemma_measure(
    format: &BlockFormat,
    block: &[u8],
    now_ms: u64,
    result: Result<u64, BlockFault>,
)
    requires
        call_ensures(BlockFormat::measure, (format, block, now_ms), result),
        block@.len() >= 16,
    ensures
        ({
            let magic = be_value(block@.subrange(0, 8));
            let sent_ms = be_value(block@.subrange(8, 16));
            &&& result is Ok <==> (magic == format.spec_magic() && sent_ms <= now_ms)
            &&& result matches Ok(latency) ==> latency == now_ms - sent_ms
            &&& result matches Err(BlockFault::WrongMagic { found }) ==> found == magic && magic
                != format.spec_magic()
            &&& result matches Err(BlockFault::SentLater { sent_ms: at }) ==> at == sent_ms
                && magic == format.spec_magic()
        }),
{
    lemma_eight_bytes(block@.subrange(0, 8));
    lemma_eight_bytes(block@.subrange(8, 16));
}

/// The latency of a block is what went by since its stamp.
pub proof fn lemma_latency(format: &BlockFormat, block: &[u8], now_ms: u64, latency: u64)
    requires
        call_ensures(BlockFormat::latency, (format, block, now_ms), latency),
    ensures
        latency + be_value(block@.subrange(8, 16)) == now_ms,
{
}

/// A block that is stamped at one time and measured at a later one took what is
/// between the two.
pub proof fn lemma_stamp_then_measure(
    format: &BlockFormat,
    stamped: &mut Vec<u8>,
    sent_ms: u64,
    block: &[u8],
    now_ms: u64,
    result: Result<u64, BlockFault>,
)
    requires
        call_ensures(BlockFormat::stamp, (format, stamped, sent_ms), ()),
        old(stamped)@.len() >= 16,
        block@ == final(stamped)@,
        call_ensures(BlockFormat::measure, (format, block, now_ms), result),
    ensures
        sent_ms <= now_ms ==> result == Ok::<u64, BlockFault>((now_ms - sent_ms) as u64),
        sent_ms > now_ms ==> result is Err,
{
    lemma_stamp(format, stamped, sent_ms);
    lemma_measure(format, block, now_ms, result);
}

/// Nothing is lost and nothing is made up when bytes are collected: the blocks
/// that come out, and then the bytes that stay, are the bytes that were there
/// and the new ones; each block is whole; and less than a block stays.
pub proof fn lemma_ingest(aggregator: &mut BlockAggregator, data: &[u8], blocks: Vec<Vec<u8>>)
    requires
        call_ensures(BlockAggregator::ingest, (aggregator, data), blocks),
        old(aggregator).format().spec_block_size() > 0,
    ensures
        joined(views(blocks@)) + final(aggregator).pending() == old(aggregator).pending() + data@,
        forall|i: int|
            0 <= i < blocks@.len() ==> (#[trigger] blocks@[i])@.len() == old(
                aggregator
            ).format().spec_block_size(),
        final(aggregator).pending().len() < old(aggregator).format().spec_block_size(),
        final(aggregator).format() == old(aggregator).format(),
{
    let size = old(aggregator).format().spec_block_size();
    let all = old(aggregator).pending() + data@;
    crate::aggregator::lemma_blocks_and_rest(all, size);
    assert forall|i: int| 0 <= i < blocks@.len() implies (#[trigger] blocks@[i])@.len() == size by {
        assert(views(blocks@)[i] == blocks@[i]@);
        assert(crate::aggregator::blocks_of(all, size)[i].len() == size);
    }
}

/// A collector starts with nothing, and reads two blocks at a time.
pub proof fn lemma_new_aggregator(format: BlockFormat, aggregator: BlockAggregator, size: usize)
    requires
        call_ensures(BlockAggregator::new, (format,), aggregator),
        call_ensures(BlockAggregator::read_size, (&aggregator,), size),
    ensures
        aggregator.pending().len() == 0,
        aggregator.format() == format,
        size == format.spec_block_size() + format.spec_block_size(),
        aggregator.wf(),
{
}

/// A packet without a readable header stops the subscriber; a connection gets
/// every other packet; without a connection an Initial packet opens one, and any
/// other is dropped.
pub proof fn lemma_route_header(
    connected: bool,
    header: &Result<PacketHeader, quiche::Error>,
    route: Route,
)
    requires
        call_ensures(route_header, (connected, header), route),
    ensures
        header matches Err(error) ==> route == Route::Malformed(*error),
        header is Ok && connected ==> route is Deliver,
        header is Ok && !connected && header->Ok_0.ty == PacketType::Initial ==> route is Accept,
        header is Ok && !connected && header->Ok_0.ty != PacketType::Initial ==> route is Ignore,
{
}

/// The same of a packet, by the header that its bytes hold, where short headers
/// have identifiers of twenty bytes.
pub proof fn lemma_route_packet(connected: bool, packet: &[u8], route: Route)
    requires
        call_ensures(route_packet, (connected, packet), route),
    ensures
        ({
            let header = header_fields(packet@, 20);
            &&& header is None <==> route is Malformed
            &&& header_of(packet@, 20) matches Err(error) ==> route == Route::Malformed(error)
            &&& header is Some && connected ==> route is Deliver
            &&& header matches Some((ty, _)) ==> !connected ==> (route is Accept <==> ty
                == PacketType::Initial) && (route is Ignore <==> ty != PacketType::Initial)
        }),
{
}

/// What a read brings comes out as whole blocks, in order, or stays for the next
/// read, and nothing is lost; a read that brings nothing changes nothing.
pub proof fn lemma_take(
    subscriber: &mut Subscriber,
    outcome: ReadOutcome,
    buf: &[u8],
    inbound: Inbound,
)
    requires
        call_ensures(Subscriber::take, (subscriber, outcome, buf), inbound),
        old(subscriber).format().spec_block_size() > 0,
    ensures
        ({
            let size = old(subscriber).format().spec_block_size();
            let pending = old(subscriber).pending();
            let after = final(subscriber).pending();
            &&& inbound is Blocks <==> (outcome is Data && outcome->read > 0)
            &&& inbound matches Inbound::Blocks(blocks) ==> {
                &&& joined(views(blocks@)) + after == pending + buf@.take(outcome->read as int)
                &&& forall|i: int|
                    0 <= i < blocks@.len() ==> (#[trigger] blocks@[i])@.len() == size
                &&& after.len() < size
            }
            &&& !(inbound is Blocks) ==> after == pending
            &&& outcome is Data && outcome->read == 0 ==> inbound is Nothing
            &&& outcome is Blocked ==> inbound is Yield
            &&& outcome matches ReadOutcome::Failed(error) ==> inbound == Inbound::Failed(error)
        }),
        final(subscriber).format() == old(subscriber).format(),
        final(subscriber).spec_deadline() == old(subscriber).spec_deadline(),
{
    let size = old(subscriber).format().spec_block_size();
    if outcome is Data && outcome->read > 0 {
        let all = old(subscriber).pending() + buf@.take(outcome->read as int);
        crate::aggregator::lemma_blocks_and_rest(all, size);
        let blocks = inbound->Blocks_0;
        assert forall|i: int| 0 <= i < blocks@.len() implies (#[trigger] blocks@[i])@.len()
            == size by {
            assert(views(blocks@)[i] == blocks@[i]@);
            assert(crate::aggregator::blocks_of(all, size)[i].len() == size);
        }
    }
}

/// The subscriber reads the first stream that has data, of an established
/// connection, two blocks at a time, and takes in what comes.
pub proof fn lemma_poll_stream(
    subscriber: &mut Subscriber,
    conn: &mut quiche::Connection,
    inbound: Inbound,
)
    requires
        call_ensures(Subscriber::poll_stream, (subscriber, conn), inbound),
        old(subscriber).format().spec_block_size() > 0,
    ensures
        ({
            let size = old(subscriber).format().spec_block_size();
            let due = conn_established(*old(conn)) && conn_readable(*old(conn)).len() > 0;
            let (outcome, bytes, after) = conn_read(
                *old(conn),
                conn_readable(*old(conn))[0],
                size + size,
            );
            &&& due ==> *final(conn) == after
            &&& !due ==> *final(conn) == *old(conn) && inbound is Nothing
            &&& inbound is Blocks <==> (due && outcome is Data && outcome->read > 0)
            &&& inbound matches Inbound::Blocks(blocks) ==> {
                &&& joined(views(blocks@)) + final(subscriber).pending() == old(
                    subscriber
                ).pending() + bytes
                &&& forall|i: int|
                    0 <= i < blocks@.len() ==> (#[trigger] blocks@[i])@.len() == size
                &&& final(subscriber).pending().len() < size
            }
            &&& !(inbound is Blocks) ==> final(subscriber).pending() == old(subscriber).pending()
            &&& due && outcome is Blocked ==> inbound is Yield
            &&& due ==> (outcome matches ReadOutcome::Failed(error) ==> inbound
                == Inbound::Failed(error))
        }),
{
    let size = old(subscriber).format().spec_block_size();
    let (outcome, bytes, after) = conn_read(
        *old(conn),
        conn_readable(*old(conn))[0],
        size + size,
    );
    assert(size + size == old(subscriber).spec_read_size());
    if inbound is Blocks {
        let all = old(subscriber).pending() + bytes;
        crate::aggregator::lemma_blocks_and_rest(all, size);
        let blocks = inbound->Blocks_0;
        assert forall|i: int| 0 <= i < blocks@.len() implies (#[trigger] blocks@[i])@.len()
            == size by {
            assert(views(blocks@)[i] == blocks@[i]@);
            assert(crate::aggregator::blocks_of(all, size)[i].len() == size);
        }
    }
}

/// A new subscriber holds nothing and waits for no timer.
pub proof fn lemma_new_subscriber(format: BlockFormat, subscriber: Subscriber)
    requires
        call_ensures(Subscriber::new, (format,), subscriber),
    ensures
        subscriber.wf(),
        subscriber.format() == format,
        subscriber.pending().len() == 0,
        subscriber.spec_deadline() is None,
{
}

/// The timer goes off when the time that the connection names is over; a
/// connection that names none leaves it alone.
pub proof fn lemma_subscriber_rearms(
    subscriber: &mut Subscriber,
    conn: &quiche::Connection,
    now: u128,
)
    requires
        call_ensures(Subscriber::rearm, (subscriber, conn, now), ()),
    ensures
        exists|timeout: Option<u128>|
            {
                &&& #[trigger] names_timeout(*conn, timeout)
                &&& timeout matches Some(ns) ==> final(subscriber).spec_deadline() == Some(
                    (now + ns) as u128,
                )
                &&& timeout is None ==> final(subscriber).spec_deadline() == old(
                    subscriber
                ).spec_deadline()
            },
        final(subscriber).pending() == old(subscriber).pending(),
{
}

/// The block of a time holds the format's magic number and that time.
pub proof fn lemma_block_of_a_time(format: BlockFormat, sent_ms: u64)
    requires
        format.spec_block_size() >= 16,
    ensures
        is_block(format.block(sent_ms), format.spec_magic(), sent_ms, format.spec_block_size()),
{
    crate::block::lemma_block_round_trip(format, sent_ms, sent_ms);
    crate::block::lemma_be_round_trip(format.spec_magic());
    crate::block::lemma_be_round_trip(sent_ms);
}

} // verus!
