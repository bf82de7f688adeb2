//! The publisher: it sends one block every period over a one-way stream.
//!
//! The publisher decides and does not wait. It is told what happened, an
//! [`Event`], and answers with what is to be done next, an [`Action`]; after
//! that was done, the next event is due.

use vstd::prelude::*;
use vstd::slice::slice_subrange;

use crate::aggregator::joined;
use crate::block::{be_bytes, filling, lemma_stamp_again, BlockFormat, HEADER_LEN};
use crate::transport::{
    conn_capacity, conn_closed, conn_established, conn_sent, stream_send, SendOutcome,
};

verus! {

/// Nanoseconds in which the connection has to be established.
pub const ESTABLISH_CONNECTION_TIMEOUT_NS: u128 = 5_000_000_000;

/// Nanoseconds between two looks at the clock while a period runs out.
pub const POLL_INTERVAL_NS: u128 = 1_000_000;

/// Nanoseconds to wait for a packet at most, where nothing else is due.
pub const POLL_WAIT_NS: u128 = 1_000_000;

/// Nanoseconds from one block to the next.
pub const PERIOD_NS: u128 = 330_000_000;

/// The stream has little room below this many bytes.
pub const LOW_CAPACITY: usize = 1000;

/// Nanoseconds to rest when the stream has little room.
pub const REST_NS: u128 = 5_000_000;

/// Nanoseconds until the first timeout, when the connection names none.
pub const FIRST_DEADLINE_NS: u128 = 1_000_000_000_000;

/// The first stream that a client opens in one direction.
pub const STREAM_ID: u64 = 2;

/// What the publisher waits to be told.
#[derive(Clone, Copy, Debug, PartialEq, Eq, Structural)]
pub enum Stage {
    /// Whether the connection is closed.
    Top,
    /// That incoming packets were polled.
    Polling,
    /// How much of the block the stream took.
    Offering,
    /// That outgoing packets were flushed.
    Flushing,
    /// How long the block took.
    Measuring,
    /// How long ago the block was started.
    Pacing,
    /// How much room the stream has.
    Resting,
    /// Nothing any more.
    Ended,
}

/// What happened.
#[derive(Clone, Copy, Debug)]
pub enum Event {
    /// A round starts, `elapsed` nanoseconds after the first.
    Top { closed: bool, elapsed: u128 },
    /// Packets were taken in and sent out. It is `now_ms` now.
    Polled { established: bool, now_ms: u64 },
    /// The rest of the block was offered to the stream.
    Offered(SendOutcome),
    /// Outgoing packets were flushed.
    Flushed,
    /// The block was through after so many nanoseconds.
    Measured { elapsed: u128 },
    /// Packets were looked after for a while; the block was started so many
    /// nanoseconds ago.
    Paced { elapsed: u128 },
    /// The stream's room is known, or not.
    Capacity(Option<usize>),
}

/// What is to be done.
#[derive(Clone, Copy, Debug)]
pub enum Action {
    /// The connection is closed. There is nothing left to do.
    Finish,
    /// The connection was not established in time.
    GiveUp,
    /// Wait for a packet for a moment, take it in, and flush.
    Poll,
    /// Start the next round.
    Restart,
    /// Offer the block from `offset` on to the stream.
    Offer { stream_id: u64, offset: usize },
    /// Flush outgoing packets.
    Flush,
    /// Wait for a packet or for the timer, then flush outgoing packets.
    AwaitRoom,
    /// The stream cannot be written to.
    Abort(quiche::Error),
    /// See how long the block took.
    Measure,
    /// Look after packets and the timer for a moment.
    Pace,
    /// Sleep for a moment, then look after packets and the timer.
    SleepAndPace,
    /// See how much room the stream has. The block took too long if `overrun`.
    CheckCapacity { overrun: bool },
    /// Rest, then start the next round.
    Rest,
}

/// What is to be done about a packet that the connection refused.
#[derive(Clone, Copy, Debug)]
pub enum Refusal {
    /// The publisher fails.
    End(quiche::Error),
    /// It is reported, and the publisher goes on.
    Report(quiche::Error),
}

/// What a publisher knows.
pub struct State {
    pub stage: Stage,
    pub stream_id: Option<u64>,
    /// The block that is being sent or was sent last.
    pub message: Seq<u8>,
    /// How much of it the stream took.
    pub offset: int,
}

impl State {
    /// The event is the one that is due, and possible.
    pub open spec fn expects(self, event: Event) -> bool {
        match event {
            Event::Top { .. } => self.stage == Stage::Top,
            Event::Polled { .. } => self.stage == Stage::Polling,
            Event::Offered(outcome) => self.stage == Stage::Offering && outcome.answers(
                (self.message.len() - self.offset) as nat,
            ),
            Event::Flushed => self.stage == Stage::Flushing,
            Event::Measured { .. } => self.stage == Stage::Measuring,
            Event::Paced { .. } => self.stage == Stage::Pacing,
            Event::Capacity(_) => self.stage == Stage::Resting,
        }
    }

    /// The stream that the publisher has after it polled.
    pub open spec fn stream_after_poll(self, established: bool) -> Option<u64> {
        if established && self.stream_id is None {
            Some(STREAM_ID)
        } else {
            self.stream_id
        }
    }

    /// What the publisher knows after the event.
    pub open spec fn after(self, format: BlockFormat, event: Event) -> State {
        match event {
            Event::Top { closed, elapsed } => State {
                stage: if closed || self.too_late(elapsed) {
                    Stage::Ended
                } else {
                    Stage::Polling
                },
                ..self
            },
            Event::Polled { established, now_ms } => match self.stream_after_poll(established) {
                Some(stream_id) => State {
                    stage: Stage::Offering,
                    stream_id: Some(stream_id),
                    message: format.block(now_ms),
                    offset: 0,
                },
                None => State { stage: Stage::Top, ..self },
            },
            Event::Offered(SendOutcome::Written(n)) => State {
                stage: Stage::Flushing,
                offset: self.offset + n,
                ..self
            },
            Event::Offered(SendOutcome::Blocked) => State { stage: Stage::Flushing, ..self },
            Event::Offered(SendOutcome::Failed(_)) => State { stage: Stage::Ended, ..self },
            Event::Flushed => State {
                stage: if self.offset < self.message.len() {
                    Stage::Offering
                } else {
                    Stage::Measuring
                },
                ..self
            },
            Event::Measured { elapsed } => State {
                stage: if elapsed < PERIOD_NS {
                    Stage::Pacing
                } else {
                    Stage::Resting
                },
                ..self
            },
            Event::Paced { elapsed } => State {
                stage: if elapsed + POLL_INTERVAL_NS >= PERIOD_NS {
                    Stage::Resting
                } else {
                    Stage::Pacing
                },
                ..self
            },
            Event::Capacity(_) => State { stage: Stage::Top, ..self },
        }
    }

    /// No connection was established in the time that it may take.
    pub open spec fn too_late(self, elapsed: u128) -> bool {
        elapsed > ESTABLISH_CONNECTION_TIMEOUT_NS && self.stream_id is None
    }

    /// What is to be done after the event.
    pub open spec fn reaction(self, event: Event) -> Action {
        match event {
            Event::Top { closed, elapsed } => if closed {
                Action::Finish
            } else if self.too_late(elapsed) {
                Action::GiveUp
            } else {
                Action::Poll
            },
            Event::Polled { established, .. } => match self.stream_after_poll(established) {
                Some(stream_id) => Action::Offer { stream_id, offset: 0 },
                None => Action::Restart,
            },
            Event::Offered(SendOutcome::Written(_)) => Action::Flush,
            Event::Offered(SendOutcome::Blocked) => Action::AwaitRoom,
            Event::Offered(SendOutcome::Failed(error)) => Action::Abort(error),
            Event::Flushed => if self.offset < self.message.len() {
                Action::Offer { stream_id: self.stream_id->0, offset: self.offset as usize }
            } else {
                Action::Measure
            },
            Event::Measured { elapsed } => if elapsed < PERIOD_NS {
                Action::Pace
            } else {
                Action::CheckCapacity { overrun: true }
            },
            Event::Paced { elapsed } => if elapsed + POLL_INTERVAL_NS >= PERIOD_NS {
                Action::CheckCapacity { overrun: false }
            } else {
                Action::SleepAndPace
            },
            Event::Capacity(capacity) => if capacity matches Some(room) && room < LOW_CAPACITY {
                Action::Rest
            } else {
                Action::Restart
            },
        }
    }
}

impl State {
    /// The event was due, and it leads to `next` and to `action`.
    pub open spec fn leads_to(
        self,
        format: BlockFormat,
        event: Event,
        next: State,
        action: Action,
    ) -> bool {
        &&& self.expects(event)
        &&& next == self.after(format, event)
        &&& action == self.reaction(event)
    }
}

/// Sends blocks.
pub struct Publisher {
    format: BlockFormat,
    message: Vec<u8>,
    stream_id: Option<u64>,
    offset: usize,
    stage: Stage,
}

impl View for Publisher {
    type V = State;

    closed spec fn view(&self) -> State {
        State {
            stage: self.stage,
            stream_id: self.stream_id,
            message: self.message@,
            offset: self.offset as int,
        }
    }
}

impl Publisher {
    pub closed spec fn format(self) -> BlockFormat {
        self.format
    }

    /// The message is a block of the format, sent so far up to the offset; and
    /// nothing is offered before there is a stream, nor behind the message.
    pub closed spec fn wf(self) -> bool {
        &&& self.format.spec_block_size() >= HEADER_LEN
        &&& self.message@.len() == self.format.spec_block_size()
        &&& self.message@.skip(HEADER_LEN as int) == filling(
            (self.format.spec_block_size() - HEADER_LEN) as nat,
        )
        &&& self.offset <= self.message@.len()
        &&& self.stage == Stage::Offering ==> self.offset < self.message@.len()
        &&& self.stage == Stage::Offering || self.stage == Stage::Flushing ==> self.stream_id is Some
    }

    /// A publisher in front of its first round.
    pub fn new(format: BlockFormat) -> (publisher: Publisher)
        ensures
            publisher.wf(),
            publisher.format() == format,
            publisher@ == (State {
                stage: Stage::Top,
                stream_id: None,
                message: filling(format.spec_block_size()),
                offset: 0,
            }),
    {
        let size: usize = format.block_size();
        let message = format.blank();
        assert(message@.skip(HEADER_LEN as int) =~= filling((size - HEADER_LEN) as nat));
        Publisher { format, message, stream_id: None, offset: 0, stage: Stage::Top }
    }

    /// Takes in what happened and says what is to be done.
    pub fn step(&mut self, event: Event) -> (action: Action)
        requires
            old(self).wf(),
            old(self)@.expects(event),
        ensures
            final(self).wf(),
            final(self).format() == old(self).format(),
            old(self)@.leads_to(old(self).format(), event, final(self)@, action),
    {
        match event {
            Event::Top { closed, elapsed } => {
                if closed {
                    self.stage = Stage::Ended;
                    Action::Finish
                } else if elapsed > ESTABLISH_CONNECTION_TIMEOUT_NS && self.stream_id.is_none() {
                    self.stage = Stage::Ended;
                    Action::GiveUp
                } else {
                    self.stage = Stage::Polling;
                    Action::Poll
                }
            },
            Event::Polled { established, now_ms } => {
                if established && self.stream_id.is_none() {
                    self.stream_id = Some(STREAM_ID);
                }
                match self.stream_id {
                    Some(stream_id) => {
                        self.format.stamp(&mut self.message, now_ms);
                        proof {
                            self.lemma_stamped(*old(self), now_ms);
                        }
                        self.offset = 0;
                        self.stage = Stage::Offering;
                        Action::Offer { stream_id, offset: 0 }
                    },
                    None => {
                        self.stage = Stage::Top;
                        Action::Restart
                    },
                }
            },
            Event::Offered(outcome) => match outcome {
                SendOutcome::Written(n) => {
                    let size: usize = self.message.len();
                    assert(self.offset + n <= size);
                    self.offset = self.offset + n;
                    self.stage = Stage::Flushing;
                    Action::Flush
                },
                SendOutcome::Blocked => {
                    self.stage = Stage::Flushing;
                    Action::AwaitRoom
                },
                SendOutcome::Failed(error) => {
                    self.stage = Stage::Ended;
                    Action::Abort(error)
                },
            },
            Event::Flushed => {
                if self.offset < self.message.len() {
                    self.stage = Stage::Offering;
                    Action::Offer { stream_id: self.stream_id.unwrap(), offset: self.offset }
                } else {
                    self.stage = Stage::Measuring;
                    Action::Measure
                }
            },
            Event::Measured { elapsed } => {
                if elapsed < PERIOD_NS {
                    self.stage = Stage::Pacing;
                    Action::Pace
                } else {
                    self.stage = Stage::Resting;
                    Action::CheckCapacity { overrun: true }
                }
            },
            Event::Paced { elapsed } => {
                if elapsed >= PERIOD_NS - POLL_INTERVAL_NS {
                    self.stage = Stage::Resting;
                    Action::CheckCapacity { overrun: false }
                } else {
                    self.stage = Stage::Pacing;
                    Action::SleepAndPace
                }
            },
            Event::Capacity(capacity) => {
                self.stage = Stage::Top;
                match capacity {
                    Some(room) => if room < LOW_CAPACITY {
                        Action::Rest
                    } else {
                        Action::Restart
                    },
                    None => Action::Restart,
                }
            },
        }
    }

    /// A message of the format that was stamped is the block of that time.
    proof fn lemma_stamped(self, before: Publisher, sent_ms: u64)
        requires
            before.wf(),
            self.format == before.format,
            self.message@ == be_bytes(self.format.spec_magic() as nat, 8) + be_bytes(
                sent_ms as nat,
                8,
            ) + before.message@.skip(HEADER_LEN as int),
        ensures
            self.message@ == self.format.block(sent_ms),
            self.message@.len() == self.format.spec_block_size(),
            self.message@.skip(HEADER_LEN as int) == before.message@.skip(HEADER_LEN as int),
    {
        lemma_stamp_again(self.format, sent_ms, sent_ms);
        crate::block::lemma_block_round_trip(self.format, sent_ms, sent_ms);
        crate::block::lemma_be_round_trip(self.format.spec_magic());
        crate::block::lemma_be_round_trip(sent_ms);
        assert(self.message@.skip(HEADER_LEN as int) =~= before.message@.skip(HEADER_LEN as int));
    }
}

impl Publisher {
    /// The block that is being sent, or was sent last.
    pub fn message(&self) -> (message: &[u8])
        ensures
            message@ == self@.message,
    {
        self.message.as_slice()
    }

    /// Decides on a packet that the connection refused: while a period runs out
    /// it is only reported, at any other time it ends the publisher.
    pub fn refused(&self, error: quiche::Error) -> (refusal: Refusal)
        ensures
            refusal == if self@.stage == Stage::Pacing {
                Refusal::Report(error)
            } else {
                Refusal::End(error)
            },
    {
        if self.stage == Stage::Pacing {
            Refusal::Report(error)
        } else {
            Refusal::End(error)
        }
    }

    /// Starts a round, `elapsed` nanoseconds after the first.
    pub fn begin_round(&mut self, conn: &quiche::Connection, elapsed: u128) -> (action: Action)
        requires
            old(self).wf(),
            old(self)@.stage == Stage::Top,
        ensures
            final(self).wf(),
            final(self).format() == old(self).format(),
            old(self)@.leads_to(
                old(self).format(),
                Event::Top { closed: conn_closed(*conn), elapsed },
                final(self)@,
                action,
            ),
    {
        let closed = conn.is_closed();
        self.step(Event::Top { closed, elapsed })
    }

    /// Goes on after incoming packets were polled.
    pub fn after_poll(&mut self, conn: &quiche::Connection, now_ms: u64) -> (action: Action)
        requires
            old(self).wf(),
            old(self)@.stage == Stage::Polling,
        ensures
            final(self).wf(),
            final(self).format() == old(self).format(),
            old(self)@.leads_to(
                old(self).format(),
                Event::Polled { established: conn_established(*conn), now_ms },
                final(self)@,
                action,
            ),
    {
        let established = conn.is_established();
        self.step(Event::Polled { established, now_ms })
    }

    /// Offers the rest of the block to the stream.
    pub fn offer(&mut self, conn: &mut quiche::Connection) -> (action: Action)
        requires
            old(self).wf(),
            old(self)@.stage == Stage::Offering,
        ensures
            final(self).wf(),
            final(self).format() == old(self).format(),
            old(self)@.leads_to(
                old(self).format(),
                Event::Offered(
                    conn_sent(
                        *old(conn),
                        old(self)@.stream_id->0,
                        old(self)@.message.skip(old(self)@.offset),
                        false,
                    ).0,
                ),
                final(self)@,
                action,
            ),
            *final(conn) == conn_sent(
                *old(conn),
                old(self)@.stream_id->0,
                old(self)@.message.skip(old(self)@.offset),
                false,
            ).1,
    {
        let stream_id: u64 = self.stream_id.unwrap();
        let rest = slice_subrange(self.message.as_slice(), self.offset, self.message.len());
        assert(rest@ =~= self@.message.skip(self@.offset));
        let outcome = stream_send(conn, stream_id, rest, false);
        self.step(Event::Offered(outcome))
    }

    /// Ends a round by looking at the room that the stream has.
    pub fn check_capacity(&mut self, conn: &quiche::Connection) -> (action: Action)
        requires
            old(self).wf(),
            old(self)@.stage == Stage::Resting,
        ensures
            final(self).wf(),
            final(self).format() == old(self).format(),
            old(self)@.leads_to(
                old(self).format(),
                Event::Capacity(old(self)@.room(*conn)),
                final(self)@,
                action,
            ),
    {
        let capacity = match self.stream_id {
            Some(stream_id) => match conn.stream_capacity(stream_id) {
                Ok(room) => Some(room),
                Err(_) => None,
            },
            None => None,
        };
        self.step(Event::Capacity(capacity))
    }
}

impl State {
    /// What a publisher knows in front of its first round.
    pub open spec fn first(format: BlockFormat) -> State {
        State {
            stage: Stage::Top,
            stream_id: None,
            message: filling(format.spec_block_size()),
            offset: 0,
        }
    }

    /// The room that the stream has, where there is a stream and it tells.
    pub open spec fn room(self, conn: quiche::Connection) -> Option<usize> {
        match self.stream_id {
            Some(stream_id) => match conn_capacity(conn, stream_id) {
                Ok(room) => Some(room),
                Err(_) => None,
            },
            None => None,
        }
    }

    /// What the publisher knows after all the events.
    pub open spec fn run(self, format: BlockFormat, events: Seq<Event>) -> State
        decreases events.len(),
    {
        if events.len() == 0 {
            self
        } else {
            self.run(format, events.drop_last()).after(format, events.last())
        }
    }

    /// Each event was due when it happened.
    pub open spec fn possible(self, format: BlockFormat, events: Seq<Event>) -> bool
        decreases events.len(),
    {
        events.len() == 0 || {
            &&& self.possible(format, events.drop_last())
            &&& self.run(format, events.drop_last()).expects(events.last())
        }
    }

    /// The bytes that an event put into the stream.
    pub open spec fn taken(self, event: Event) -> Seq<u8> {
        match event {
            Event::Offered(SendOutcome::Written(n)) => self.message.subrange(
                self.offset,
                self.offset + n,
            ),
            _ => Seq::empty(),
        }
    }

    /// The bytes that the stream took, from the first event on.
    pub open spec fn stream(self, format: BlockFormat, events: Seq<Event>) -> Seq<u8>
        decreases events.len(),
    {
        if events.len() == 0 {
            Seq::empty()
        } else {
            let earlier = events.drop_last();
            self.stream(format, earlier) + self.run(format, earlier).taken(events.last())
        }
    }

    /// A block is started.
    pub open spec fn starts(self, event: Event) -> bool {
        event matches Event::Polled { established, now_ms } && self.stream_after_poll(
            established,
        ) is Some
    }

    /// The times of the blocks that were started.
    pub open spec fn started(self, format: BlockFormat, events: Seq<Event>) -> Seq<u64>
        decreases events.len(),
    {
        if events.len() == 0 {
            Seq::empty()
        } else {
            let earlier = self.started(format, events.drop_last());
            if self.run(format, events.drop_last()).starts(events.last()) {
                earlier.push(events.last()->now_ms)
            } else {
                earlier
            }
        }
    }

    /// Since the last block was started, its period went by, or all of it but
    /// one look at the clock.
    pub open spec fn period_over(self, format: BlockFormat, events: Seq<Event>) -> bool
        decreases events.len(),
    {
        if events.len() == 0 {
            false
        } else if self.run(format, events.drop_last()).starts(events.last()) {
            false
        } else {
            self.period_over(format, events.drop_last()) || match events.last() {
                Event::Measured { elapsed } => elapsed >= PERIOD_NS,
                Event::Paced { elapsed } => elapsed + POLL_INTERVAL_NS >= PERIOD_NS,
                _ => false,
            }
        }
    }
}

/// The blocks of the given times.
pub open spec fn blocks_at(format: BlockFormat, times: Seq<u64>) -> Seq<Seq<u8>> {
    times.map_values(|sent_ms: u64| format.block(sent_ms))
}

/// The stream holds whole blocks, each stamped with the time at which it was
/// started, in order and once, and behind them as much of the last one as was
/// taken. Outside of sending, the last one was taken whole. There is one stream,
/// and it has always the same number.
pub proof fn lemma_stream_is_blocks(format: BlockFormat, events: Seq<Event>)
    requires
        HEADER_LEN <= format.spec_block_size(),
        State::first(format).possible(format, events),
    ensures
        ({
            let first = State::first(format);
            let state = first.run(format, events);
            let times = first.started(format, events);
            let stream = first.stream(format, events);
            &&& state.stream_id is Some <==> times.len() > 0
            &&& state.stream_id is Some ==> state.stream_id == Some(STREAM_ID)
            &&& times.len() == 0 ==> stream == Seq::<u8>::empty()
            &&& times.len() > 0 ==> {
                &&& state.message == format.block(times.last())
                &&& 0 <= state.offset <= state.message.len()
                &&& stream == joined(blocks_at(format, times.drop_last())) + state.message.take(
                    state.offset,
                )
            }
            &&& state.stage == Stage::Offering ==> state.offset < state.message.len()
            &&& state.stage == Stage::Offering || state.stage == Stage::Flushing || state.stage
                == Stage::Measuring || state.stage == Stage::Pacing || state.stage
                == Stage::Resting ==> times.len() > 0
            &&& times.len() > 0 && state.stage != Stage::Offering && state.stage != Stage::Flushing
                && state.stage != Stage::Ended ==> state.offset == state.message.len()
        }),
    decreases events.len(),
{
    let first = State::first(format);
    let state = first.run(format, events);
    let times = first.started(format, events);
    if events.len() > 0 {
        let earlier = events.drop_last();
        let event = events.last();
        lemma_stream_is_blocks(format, earlier);
        let before = first.run(format, earlier);
        let times_before = first.started(format, earlier);
        let stream_before = first.stream(format, earlier);
        if before.starts(event) {
            let now_ms = event->now_ms;
            crate::block::lemma_block_round_trip(format, now_ms, now_ms);
            assert(times.drop_last() =~= times_before);
            if times_before.len() > 0 {
                assert(before.message.take(before.offset) =~= before.message);
                assert(blocks_at(format, times_before).drop_last() =~= blocks_at(
                    format,
                    times_before.drop_last(),
                ));
            }
            assert(first.stream(format, events) =~= joined(blocks_at(format, times.drop_last()))
                + state.message.take(0));
        } else if event matches Event::Offered(SendOutcome::Written(n)) {
            assert(first.stream(format, events) =~= joined(
                blocks_at(format, times.drop_last()),
            ) + state.message.take(state.offset));
        } else {
            assert(first.stream(format, events) =~= stream_before);
        }
    }
}

/// Nothing is put into the stream before the connection was seen to be
/// established.
pub proof fn lemma_silent_until_established(format: BlockFormat, events: Seq<Event>)
    requires
        State::first(format).possible(format, events),
        forall|i: int|
            0 <= i < events.len() ==> !(#[trigger] events[i] matches Event::Polled {
                established: true,
                ..
            }),
    ensures
        State::first(format).run(format, events).stream_id is None,
        State::first(format).stream(format, events) == Seq::<u8>::empty(),
    decreases events.len(),
{
    if events.len() > 0 {
        let earlier = events.drop_last();
        assert forall|i: int| 0 <= i < earlier.len() implies !(
        #[trigger] earlier[i] matches Event::Polled { established: true, .. }) by {
            assert(earlier[i] == events[i]);
        }
        lemma_silent_until_established(format, earlier);
        lemma_unopened_waits(format, earlier);
        assert(events[events.len() - 1] == events.last());
    }
}

/// Without a stream the publisher does nothing but poll.
proof fn lemma_unopened_waits(format: BlockFormat, events: Seq<Event>)
    requires
        State::first(format).possible(format, events),
        State::first(format).run(format, events).stream_id is None,
    ensures
        ({
            let stage = State::first(format).run(format, events).stage;
            stage == Stage::Top || stage == Stage::Polling || stage == Stage::Ended
        }),
    decreases events.len(),
{
    if events.len() > 0 {
        let before = State::first(format).run(format, events.drop_last());
        assert(before.stream_id is None);
        lemma_unopened_waits(format, events.drop_last());
    }
}

/// Once there is a stream it stays, and the publisher gives up no more.
pub proof fn lemma_stream_stays(state: State, format: BlockFormat, event: Event)
    requires
        state.expects(event),
        state.stream_id is Some,
    ensures
        state.after(format, event).stream_id == state.stream_id,
        !(state.reaction(event) is GiveUp),
{
}

/// A block is started only when the period of the block before it is over, but
/// for one look at the clock at most.
pub proof fn lemma_period_is_kept(format: BlockFormat, events: Seq<Event>)
    requires
        State::first(format).possible(format, events),
    ensures
        ({
            let state = State::first(format).run(format, events);
            let due = state.stage == Stage::Resting || state.stage == Stage::Top || state.stage
                == Stage::Polling;
            due && State::first(format).started(format, events).len() > 0 ==> State::first(
                format,
            ).period_over(format, events)
        }),
    decreases events.len(),
{
    if events.len() > 0 {
        lemma_period_is_kept(format, events.drop_last());
    }
}

/// Nanoseconds that two blocks in a row are apart at least.
pub const LEAST_GAP_NS: u128 = PERIOD_NS - POLL_INTERVAL_NS;

/// Milliseconds that the stamps of two blocks in a row are apart at least.
pub const LEAST_GAP_MS: u64 = 329;

impl State {
    /// When the last block was started, where `times` tells when the events
    /// happened; zero where none was.
    pub open spec fn last_start(
        self,
        format: BlockFormat,
        events: Seq<Event>,
        times: Seq<int>,
    ) -> int
        decreases events.len(),
    {
        if events.len() == 0 {
            0
        } else if self.run(format, events.drop_last()).starts(events.last()) {
            times.last()
        } else {
            self.last_start(format, events.drop_last(), times.drop_last())
        }
    }

    /// The events follow one clock that never goes back: `times` tells what it
    /// shows, in nanoseconds, when each event happens. The time of day is read
    /// off it in whole milliseconds; and what is measured from a block on is no
    /// more than what went by since the block was stamped, since the measuring
    /// starts after the stamping.
    pub open spec fn on_one_clock(
        self,
        format: BlockFormat,
        events: Seq<Event>,
        times: Seq<int>,
    ) -> bool
        decreases events.len(),
    {
        &&& times.len() == events.len()
        &&& events.len() > 0 ==> {
            let earlier = events.drop_last();
            let since = times.last() - self.last_start(format, earlier, times.drop_last());
            &&& self.on_one_clock(format, earlier, times.drop_last())
            &&& earlier.len() > 0 ==> times[earlier.len() - 1] <= times.last()
            &&& match events.last() {
                Event::Polled { now_ms, .. } => now_ms == times.last() / 1_000_000,
                Event::Measured { elapsed } => elapsed <= since,
                Event::Paced { elapsed } => elapsed <= since,
                _ => true,
            }
        }
    }
}

/// The last stamp is the time of the last start; and when the period is over, at
/// least the gap went by since.
proof fn lemma_gap_went_by(format: BlockFormat, events: Seq<Event>, times: Seq<int>)
    requires
        State::first(format).on_one_clock(format, events, times),
    ensures
        ({
            let first = State::first(format);
            let started = first.started(format, events);
            let start = first.last_start(format, events, times);
            &&& started.len() > 0 ==> started.last() == start / 1_000_000 && start <= times.last()
            &&& started.len() > 0 && first.period_over(format, events) ==> start + LEAST_GAP_NS
                <= times.last()
        }),
    decreases events.len(),
{
    if events.len() > 0 {
        lemma_gap_went_by(format, events.drop_last(), times.drop_last());
    }
}

/// The stamps of two blocks in a row are never less than the gap apart, however
/// quickly the first one was taken, as long as stamps and measurements follow
/// one clock that never goes back.
pub proof fn lemma_stamps_are_apart(
    format: BlockFormat,
    events: Seq<Event>,
    times: Seq<int>,
    k: int,
)
    requires
        State::first(format).possible(format, events),
        State::first(format).on_one_clock(format, events, times),
        0 <= k,
        k + 1 < State::first(format).started(format, events).len(),
    ensures
        State::first(format).started(format, events)[k + 1] >= State::first(format).started(
            format,
            events,
        )[k] + LEAST_GAP_MS,
    decreases events.len(),
{
    let first = State::first(format);
    if events.len() > 0 {
        let earlier = events.drop_last();
        let before = first.started(format, earlier);
        if k + 1 < before.len() {
            lemma_stamps_are_apart(format, earlier, times.drop_last(), k);
        } else {
            lemma_period_is_kept(format, earlier);
            lemma_gap_went_by(format, earlier, times.drop_last());
        }
    }
}

} // verus!
