//! The publisher and its schedule.

use vstd::prelude::*;

use crate::block::{be_value, BlockFormat};
use crate::publisher::{Action, Event, Publisher, Refusal, Stage, State};
use crate::schedule::publisher_delays;
use crate::transport::{conn_capacity, conn_closed, conn_established, conn_sent, SendOutcome};

verus! {

/// A block: a magic number and a time in front, each in eight bytes in network
/// byte order, and the filling byte everywhere behind them.
pub open spec fn is_block(bytes: Seq<u8>, magic: u64, sent_ms: u64, size: nat) -> bool {
    &&& bytes.len() == size
    &&& be_value(bytes.subrange(0, 8)) == magic
    &&& be_value(bytes.subrange(8, 16)) == sent_ms
    &&& forall|i: int| 16 <= i < bytes.len() ==> #[trigger] bytes[i] == 42
}

/// A round goes on exactly as long as the connection is not closed and was
/// established in five seconds. A closed connection always ends the publisher,
/// in peace; one that was not established in time ends it with a failure.
pub proof fn lemma_round(publisher: &mut Publisher, closed: bool, elapsed: u128, action: Action)
    requires
        call_ensures(Publisher::step, (publisher, Event::Top { closed, elapsed }), action),
    ensures
        closed <==> action is Finish,
        !closed && old(publisher)@.stream_id is None && elapsed > 5_000_000_000
            <==> action is GiveUp,
        action is Finish || action is GiveUp || action is Poll,
        action is Poll ==> final(publisher)@.stage == Stage::Polling,
        !(action is Poll) ==> final(publisher)@.stage == Stage::Ended,
        final(publisher)@.stream_id == old(publisher)@.stream_id,
        final(publisher)@.message == old(publisher)@.message,
        final(publisher)@.offset == old(publisher)@.offset,
{
}

/// Once the connection was seen to be established, on stream 2, every round
/// sends a block that is stamped with the time of the round; before that,
/// nothing is sent.
pub proof fn lemma_block_of_the_round(
    publisher: &mut Publisher,
    established: bool,
    now_ms: u64,
    action: Action,
)
    requires
        call_ensures(Publisher::step, (publisher, Event::Polled { established, now_ms }), action),
        old(publisher).format().spec_block_size() >= 16,
    ensures
        !established && old(publisher)@.stream_id is None ==> action is Restart && final(
            publisher
        )@.stage == Stage::Top && final(publisher)@.stream_id is None,
        established || old(publisher)@.stream_id is Some ==> {
            let stream_id = match old(publisher)@.stream_id {
                Some(stream_id) => stream_id,
                None => 2,
            };
            &&& action == (Action::Offer { stream_id, offset: 0 })
            &&& final(publisher)@.stage == Stage::Offering
            &&& final(publisher)@.stream_id == Some(stream_id)
            &&& final(publisher)@.offset == 0
            &&& is_block(
                final(publisher)@.message,
                old(publisher).format().spec_magic(),
                now_ms,
                old(publisher).format().spec_block_size(),
            )
        },
{
    if established || old(publisher)@.stream_id is Some {
        let format = old(publisher).format();
        crate::block::lemma_block_round_trip(format, now_ms, now_ms);
        crate::block::lemma_be_round_trip(format.spec_magic());
        crate::block::lemma_be_round_trip(now_ms);
    }
}

/// What the stream took of a block is behind it; a full stream is waited for,
/// with the block as it was; and a stream that fails ends the publisher.
pub proof fn lemma_block_moves_on(publisher: &mut Publisher, outcome: SendOutcome, action: Action)
    requires
        call_ensures(Publisher::step, (publisher, Event::Offered(outcome)), action),
    ensures
        outcome matches SendOutcome::Written(n) ==> action is Flush && final(publisher)@.offset
            == old(publisher)@.offset + n && final(publisher)@.stage == Stage::Flushing,
        outcome is Blocked ==> action is AwaitRoom && final(publisher)@.offset
            == old(publisher)@.offset && final(publisher)@.stage == Stage::Flushing,
        outcome matches SendOutcome::Failed(error) ==> action == Action::Abort(error)
            && final(publisher)@.stage == Stage::Ended,
        final(publisher)@.message == old(publisher)@.message,
        final(publisher)@.stream_id == old(publisher)@.stream_id,
{
}

/// A block is offered again, from where it stands, until nothing of it is left.
pub proof fn lemma_block_is_finished(publisher: &mut Publisher, action: Action)
    requires
        call_ensures(Publisher::step, (publisher, Event::Flushed), action),
        0 <= old(publisher)@.offset,
    ensures
        old(publisher)@.offset < old(publisher)@.message.len() ==> {
            &&& action matches Action::Offer { stream_id, offset }
            &&& old(publisher)@.stream_id is Some ==> stream_id == old(publisher)@.stream_id->0
            &&& old(publisher)@.offset <= usize::MAX ==> offset == old(publisher)@.offset
            &&& final(publisher)@.stage == Stage::Offering
        },
        old(publisher)@.offset >= old(publisher)@.message.len() ==> action is Measure
            && final(publisher)@.stage == Stage::Measuring,
        final(publisher)@.offset == old(publisher)@.offset,
        final(publisher)@.message == old(publisher)@.message,
        final(publisher)@.stream_id == old(publisher)@.stream_id,
{
}

/// A block that took 330 ms or more is the end of its period, and told to be
/// late; one that took less is paced.
pub proof fn lemma_late_block(publisher: &mut Publisher, elapsed: u128, action: Action)
    requires
        call_ensures(Publisher::step, (publisher, Event::Measured { elapsed }), action),
    ensures
        elapsed >= 330_000_000 ==> action == (Action::CheckCapacity { overrun: true })
            && final(publisher)@.stage == Stage::Resting,
        elapsed < 330_000_000 ==> action is Pace && final(publisher)@.stage == Stage::Pacing,
        final(publisher)@.stream_id == old(publisher)@.stream_id,
{
}

/// Pacing ends at every look at the clock that finds the period over, or less
/// than one look away from it, and at no other.
pub proof fn lemma_pacing_ends(publisher: &mut Publisher, elapsed: u128, action: Action)
    requires
        call_ensures(Publisher::step, (publisher, Event::Paced { elapsed }), action),
    ensures
        elapsed + 1_000_000 >= 330_000_000 ==> action == (Action::CheckCapacity { overrun: false })
            && final(publisher)@.stage == Stage::Resting,
        elapsed + 1_000_000 < 330_000_000 ==> action is SleepAndPace && final(publisher)@.stage
            == Stage::Pacing,
        final(publisher)@.stream_id == old(publisher)@.stream_id,
{
}

/// Behind every period the next round starts, after a rest where the stream is
/// known to have room for less than 1000 bytes.
pub proof fn lemma_next_round(publisher: &mut Publisher, capacity: Option<usize>, action: Action)
    requires
        call_ensures(Publisher::step, (publisher, Event::Capacity(capacity)), action),
    ensures
        final(publisher)@.stage == Stage::Top,
        final(publisher)@.stream_id == old(publisher)@.stream_id,
        action is Rest <==> (capacity is Some && capacity->0 < 1000),
        !(action is Rest) ==> action is Restart,
{
}

/// Nothing happens to a publisher that has ended, and to any other something
/// can: the event that it waits for, whatever it tells.
pub proof fn lemma_publisher_waits_for_one_event(
    publisher: &mut Publisher,
    event: Event,
    action: Action,
)
    requires
        call_ensures(Publisher::step, (publisher, event), action),
    ensures
        old(publisher)@.stage != Stage::Ended,
        event is Top <==> old(publisher)@.stage == Stage::Top,
        event is Polled <==> old(publisher)@.stage == Stage::Polling,
        event is Offered <==> old(publisher)@.stage == Stage::Offering,
        event is Flushed <==> old(publisher)@.stage == Stage::Flushing,
        event is Measured <==> old(publisher)@.stage == Stage::Measuring,
        event is Paced <==> old(publisher)@.stage == Stage::Pacing,
        event is Capacity <==> old(publisher)@.stage == Stage::Resting,
        final(publisher).format() == old(publisher).format(),
{
}

/// Any time may be told, and any room, and any news of the connection.
pub proof fn lemma_publisher_takes_any_news(
    publisher: &mut Publisher,
    flag: bool,
    elapsed: u128,
    now_ms: u64,
    capacity: Option<usize>,
)
    requires
        old(publisher).wf(),
    ensures
        old(publisher)@.stage == Stage::Top ==> call_requires(
            Publisher::step,
            (publisher, Event::Top { closed: flag, elapsed }),
        ),
        old(publisher)@.stage == Stage::Polling ==> call_requires(
            Publisher::step,
            (publisher, Event::Polled { established: flag, now_ms }),
        ),
        old(publisher)@.stage == Stage::Flushing ==> call_requires(
            Publisher::step,
            (publisher, Event::Flushed),
        ),
        old(publisher)@.stage == Stage::Measuring ==> call_requires(
            Publisher::step,
            (publisher, Event::Measured { elapsed }),
        ),
        old(publisher)@.stage == Stage::Pacing ==> call_requires(
            Publisher::step,
            (publisher, Event::Paced { elapsed }),
        ),
        old(publisher)@.stage == Stage::Resting ==> call_requires(
            Publisher::step,
            (publisher, Event::Capacity(capacity)),
        ),
{
}

/// When the period of a block is over, the next look at the clock leads to the
/// next block, as long as the connection is not closed, whatever the stream's
/// room and however late it is.
pub proof fn lemma_next_block_follows(
    state: State,
    format: BlockFormat,
    elapsed: u128,
    capacity: Option<usize>,
    since: u128,
    established: bool,
    now_ms: u64,
)
    requires
        state.stage == Stage::Pacing,
        state.stream_id is Some,
        elapsed + 1_000_000 >= 330_000_000,
        format.spec_block_size() >= 16,
    ensures
        ({
            let rested = state.after(format, Event::Paced { elapsed });
            let top = rested.after(format, Event::Capacity(capacity));
            let polling = top.after(format, Event::Top { closed: false, elapsed: since });
            let next = polling.after(format, Event::Polled { established, now_ms });
            &&& state.expects(Event::Paced { elapsed })
            &&& rested.expects(Event::Capacity(capacity))
            &&& top.expects(Event::Top { closed: false, elapsed: since })
            &&& polling.expects(Event::Polled { established, now_ms })
            &&& next.stage == Stage::Offering
            &&& next.stream_id == state.stream_id
            &&& next.offset == 0
            &&& is_block(next.message, format.spec_magic(), now_ms, format.spec_block_size())
        }),
{
    crate::block::lemma_block_round_trip(format, now_ms, now_ms);
    crate::block::lemma_be_round_trip(format.spec_magic());
    crate::block::lemma_be_round_trip(now_ms);
}

/// A new publisher is in front of its first round, without a stream.
pub proof fn lemma_new_publisher(format: BlockFormat, publisher: Publisher)
    requires
        call_ensures(Publisher::new, (format,), publisher),
    ensures
        publisher.format() == format,
        publisher@.stage == Stage::Top,
        publisher@.stream_id is None,
        publisher.wf(),
{
}

/// A round looks at the connection: it ends the publisher exactly where the
/// connection is closed, or was not established in time.
pub proof fn lemma_begin_round(
    publisher: &mut Publisher,
    conn: &quiche::Connection,
    elapsed: u128,
    action: Action,
)
    requires
        call_ensures(Publisher::begin_round, (publisher, conn, elapsed), action),
    ensures
        conn_closed(*conn) <==> action is Finish,
        action is GiveUp <==> (!conn_closed(*conn) && old(publisher)@.stream_id is None && elapsed
            > 5_000_000_000),
        !(action is Finish) && !(action is GiveUp) ==> action is Poll && final(publisher)@.stage
            == Stage::Polling,
        final(publisher)@.stream_id == old(publisher)@.stream_id,
{
}

/// After polling, a block of this moment is due where the connection is
/// established or was before, and only there.
pub proof fn lemma_after_poll(
    publisher: &mut Publisher,
    conn: &quiche::Connection,
    now_ms: u64,
    action: Action,
)
    requires
        call_ensures(Publisher::after_poll, (publisher, conn, now_ms), action),
        old(publisher).format().spec_block_size() >= 16,
    ensures
        action is Offer <==> (conn_established(*conn) || old(publisher)@.stream_id is Some),
        !(action is Offer) ==> action is Restart && final(publisher)@.stream_id is None,
        old(publisher)@.stream_id is None && action is Offer ==> final(publisher)@.stream_id
            == Some(2u64),
        old(publisher)@.stream_id is Some ==> final(publisher)@.stream_id == old(
            publisher
        )@.stream_id,
        action is Offer ==> final(publisher)@.offset == 0 && is_block(
            final(publisher)@.message,
            old(publisher).format().spec_magic(),
            now_ms,
            old(publisher).format().spec_block_size(),
        ),
{
    let format = old(publisher).format();
    crate::block::lemma_block_round_trip(format, now_ms, now_ms);
    crate::block::lemma_be_round_trip(format.spec_magic());
    crate::block::lemma_be_round_trip(now_ms);
}

/// An offer writes the rest of the block to the publisher's stream, does not end
/// the stream, and goes on behind what was taken.
pub proof fn lemma_offer(publisher: &mut Publisher, conn: &mut quiche::Connection, action: Action)
    requires
        call_ensures(Publisher::offer, (publisher, conn), action),
    ensures
        ({
            let state = old(publisher)@;
            let rest = state.message.subrange(state.offset, state.message.len() as int);
            let (answer, after) = conn_sent(*old(conn), state.stream_id->0, rest, false);
            &&& 0 <= state.offset <= state.message.len() ==> {
                &&& *final(conn) == after
                &&& answer matches SendOutcome::Written(n) ==> final(publisher)@.offset
                    == state.offset + n && action is Flush
                &&& answer is Blocked ==> final(publisher)@.offset == state.offset
                    && action is AwaitRoom
                &&& answer matches SendOutcome::Failed(error) ==> action == Action::Abort(error)
            }
            &&& final(publisher)@.message == state.message
        }),
{
    let state = old(publisher)@;
    if 0 <= state.offset <= state.message.len() {
        assert(state.message.skip(state.offset) =~= state.message.subrange(
            state.offset,
            state.message.len() as int,
        ));
    }
}

/// The publisher rests exactly where its stream tells that it has room for less
/// than 1000 bytes.
pub proof fn lemma_check_capacity(
    publisher: &mut Publisher,
    conn: &quiche::Connection,
    action: Action,
)
    requires
        call_ensures(Publisher::check_capacity, (publisher, conn), action),
        old(publisher)@.stream_id is Some,
    ensures
        final(publisher)@.stage == Stage::Top,
        final(publisher)@.stream_id == old(publisher)@.stream_id,
        action is Rest <==> (conn_capacity(*conn, old(publisher)@.stream_id->0) matches Ok(room)
            && room < 1000),
        !(action is Rest) ==> action is Restart,
{
}

/// A refused packet is survived while a period runs out, and at no other time.
pub proof fn lemma_refused(publisher: &Publisher, error: quiche::Error, refusal: Refusal)
    requires
        call_ensures(Publisher::refused, (publisher, error), refusal),
    ensures
        publisher@.stage == Stage::Pacing ==> refusal == Refusal::Report(error),
        publisher@.stage != Stage::Pacing ==> refusal == Refusal::End(error),
{
}

/// Publishers start one after the other, the first at once, equally far apart,
/// and all within 330 ms.
pub proof fn lemma_delays(count: usize, delays: Vec<u64>)
    requires
        call_ensures(publisher_delays, (count,), delays),
        0 < count,
    ensures
        delays@.len() == count,
        delays@[0] == 0,
        forall|i: int| 0 <= i < count ==> 0 <= #[trigger] delays@[i] < 330_000,
        forall|i: int|
            #![trigger delays@[i]]
            0 < i < count ==> delays@[i] - delays@[i - 1] == 330_000int / (count as int),
{
    assert forall|i: int| 0 <= i < count implies 0 <= #[trigger] delays@[i] < 330_000 by {
        crate::schedule::lemma_starts_within_a_period(i, count as int);
    }
    assert forall|i: int|
        #![trigger delays@[i]]
        0 < i < count implies delays@[i] - delays@[i - 1] == 330_000int / (count as int) by {
        crate::schedule::lemma_starts_are_even(i - 1, count as int);
        assert(delays@[i - 1] == crate::schedule::start_of(i - 1, count as int));
    }
    assert(delays@[0] == crate::schedule::start_of(0, count as int));
    assert(0 * (330_000int / (count as int)) == 0) by (nonlinear_arith);
}

} // verus!
