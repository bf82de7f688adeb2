//! A client that sends large messages in one burst and stays.

use vstd::prelude::*;
use vstd::slice::slice_subrange;

use crate::block::{filling, FILLING};
use crate::transport::{conn_closed, conn_established, conn_sent, stream_send, SendOutcome};

verus! {

/// Nanoseconds in which the connection has to be established.
pub const ESTABLISH_CONNECTION_TIMEOUT_NS: u128 = 5_000_000_000;

/// 300 KB.
pub const MESSAGE_SIZE: usize = 307200;

pub const MAX_MESSAGE_NUM: u32 = 100;

/// The first stream that a client opens in one direction.
pub const STREAM_ID: u64 = 2;

/// What the client waits to be told.
#[derive(Clone, Copy, Debug, PartialEq, Eq, Structural)]
pub enum Stage {
    /// Whether the connection is closed.
    Top,
    /// That a packet was taken in and one sent out.
    Polling,
    /// How much of the message the stream took.
    Offering,
    /// That packets were exchanged.
    Exchanging,
    /// Nothing any more.
    Ended,
}

/// What happened.
#[derive(Clone, Copy, Debug)]
pub enum Event {
    /// A round starts, `elapsed` nanoseconds after the first.
    Top { closed: bool, elapsed: u128 },
    /// A packet was taken in and one sent out.
    Polled { established: bool },
    /// The rest of the message was offered to the stream.
    Offered(SendOutcome),
    /// Packets were exchanged.
    Exchanged,
}

/// What is to be done.
#[derive(Clone, Copy, Debug)]
pub enum Action {
    /// The connection is closed. There is nothing left to do.
    Finish,
    /// The connection was not established in time.
    GiveUp,
    /// Take a packet in, if there is one, and send one out.
    Poll,
    /// Start the next round. A message was sent completely if `sent`.
    Restart { sent: bool },
    /// Offer the message from `offset` on to the stream.
    Offer { offset: usize },
    /// Offer the message from `offset` on again: the stream failed.
    OfferAgain { error: quiche::Error, offset: usize },
    /// Send a packet out.
    SendPacket,
    /// Take a packet in, if there is one, and send one out.
    Exchange,
}

/// What a client knows.
pub struct State {
    pub stage: Stage,
    pub connection_established: bool,
    /// How many messages were sent completely.
    pub message_count: int,
    /// How much of the current one the stream took.
    pub offset: int,
}

impl State {
    pub open spec fn left(self) -> nat {
        (MESSAGE_SIZE - self.offset) as nat
    }

    /// The event is the one that is due, and possible.
    pub open spec fn expects(self, event: Event) -> bool {
        match event {
            Event::Top { .. } => self.stage == Stage::Top,
            Event::Polled { .. } => self.stage == Stage::Polling,
            Event::Offered(outcome) => self.stage == Stage::Offering && outcome.answers(
                self.left(),
            ),
            Event::Exchanged => self.stage == Stage::Exchanging,
        }
    }

    pub open spec fn too_late(self, elapsed: u128) -> bool {
        elapsed > ESTABLISH_CONNECTION_TIMEOUT_NS && !self.connection_established
    }

    /// A message is due, given what is known of the connection now.
    pub open spec fn can_send(self, established: bool) -> bool {
        (established || self.connection_established) && self.message_count < MAX_MESSAGE_NUM
    }

    /// What the client knows after the event.
    pub open spec fn after(self, event: Event) -> State {
        match event {
            Event::Top { closed, elapsed } => State {
                stage: if closed || self.too_late(elapsed) {
                    Stage::Ended
                } else {
                    Stage::Polling
                },
                ..self
            },
            Event::Polled { established } => State {
                stage: if self.can_send(established) {
                    Stage::Offering
                } else {
                    Stage::Top
                },
                connection_established: established || self.connection_established,
                offset: 0,
                ..self
            },
            Event::Offered(SendOutcome::Written(n)) => State {
                stage: Stage::Exchanging,
                offset: self.offset + n,
                ..self
            },
            Event::Offered(SendOutcome::Blocked) => State { stage: Stage::Exchanging, ..self },
            Event::Offered(SendOutcome::Failed(_)) => self,
            Event::Exchanged => if self.offset < MESSAGE_SIZE {
                State { stage: Stage::Offering, ..self }
            } else {
                State {
                    stage: Stage::Top,
                    message_count: self.message_count + 1,
                    offset: 0,
                    ..self
                }
            },
        }
    }

    /// What is to be done after the event.
    pub open spec fn reaction(self, event: Event) -> Action {
        match event {
            Event::Top { closed, elapsed } => if closed {
                Action::Finish
            } else if self.too_late(elapsed) {
                Action::GiveUp
            } else {
                Action::Poll
            },
            Event::Polled { established } => if self.can_send(established) {
                Action::Offer { offset: 0 }
            } else {
                Action::Restart { sent: false }
            },
            Event::Offered(SendOutcome::Written(_)) => Action::SendPacket,
            Event::Offered(SendOutcome::Blocked) => Action::Exchange,
            Event::Offered(SendOutcome::Failed(error)) => Action::OfferAgain {
                error,
                offset: self.offset as usize,
            },
            Event::Exchanged => if self.offset < MESSAGE_SIZE {
                Action::Offer { offset: self.offset as usize }
            } else {
                Action::Restart { sent: true }
            },
        }
    }

    /// The event was due, and it leads to `next` and to `action`.
    pub open spec fn leads_to(self, event: Event, next: State, action: Action) -> bool {
        &&& self.expects(event)
        &&& next == self.after(event)
        &&& action == self.reaction(event)
    }

    /// What a client knows in front of its first round.
    pub open spec fn first() -> State {
        State { stage: Stage::Top, connection_established: false, message_count: 0, offset: 0 }
    }

    /// What the client knows after all the events.
    pub open spec fn run(self, events: Seq<Event>) -> State
        decreases events.len(),
    {
        if events.len() == 0 {
            self
        } else {
            self.run(events.drop_last()).after(events.last())
        }
    }

    /// Each event was due when it happened.
    pub open spec fn possible(self, events: Seq<Event>) -> bool
        decreases events.len(),
    {
        events.len() == 0 || {
            &&& self.possible(events.drop_last())
            &&& self.run(events.drop_last()).expects(events.last())
        }
    }
}

/// Sends messages.
pub struct BurstClient {
    message: Vec<u8>,
    connection_established: bool,
    message_count: u32,
    offset: usize,
    stage: Stage,
}

impl View for BurstClient {
    type V = State;

    closed spec fn view(&self) -> State {
        State {
            stage: self.stage,
            connection_established: self.connection_established,
            message_count: self.message_count as int,
            offset: self.offset as int,
        }
    }
}

impl BurstClient {
    /// No more messages are started than there are to be, and an offer offers
    /// something.
    pub closed spec fn wf(self) -> bool {
        &&& self.message@ == filling(MESSAGE_SIZE as nat)
        &&& self.message_count <= MAX_MESSAGE_NUM
        &&& self.offset <= MESSAGE_SIZE
        &&& self.stage == Stage::Offering ==> self.offset < MESSAGE_SIZE
        &&& self.stage == Stage::Offering || self.stage == Stage::Exchanging ==> self.message_count
            < MAX_MESSAGE_NUM
        &&& self.stage == Stage::Top || self.stage == Stage::Polling ==> self.offset == 0
    }

    /// A client in front of its first round.
    pub fn new() -> (client: BurstClient)
        ensures
            client.wf(),
            client@ == State::first(),
    {
        let message: Vec<u8> = vec![FILLING; MESSAGE_SIZE];
        assert(message@ =~= filling(MESSAGE_SIZE as nat));
        BurstClient {
            message,
            connection_established: false,
            message_count: 0,
            offset: 0,
            stage: Stage::Top,
        }
    }

    /// Takes in what happened and says what is to be done.
    pub fn step(&mut self, event: Event) -> (action: Action)
        requires
            old(self).wf(),
            old(self)@.expects(event),
        ensures
            final(self).wf(),
            old(self)@.leads_to(event, final(self)@, action),
    {
        match event {
            Event::Top { closed, elapsed } => {
                if closed {
                    self.stage = Stage::Ended;
                    Action::Finish
                } else if elapsed > ESTABLISH_CONNECTION_TIMEOUT_NS && !self.connection_established {
                    self.stage = Stage::Ended;
                    Action::GiveUp
                } else {
                    self.stage = Stage::Polling;
                    Action::Poll
                }
            },
            Event::Polled { established } => {
                if established && !self.connection_established {
                    self.connection_established = true;
                }
                if self.connection_established && self.message_count < MAX_MESSAGE_NUM {
                    self.stage = Stage::Offering;
                    Action::Offer { offset: 0 }
                } else {
                    self.stage = Stage::Top;
                    Action::Restart { sent: false }
                }
            },
            Event::Offered(outcome) => match outcome {
                SendOutcome::Written(n) => {
                    self.offset = self.offset + n;
                    self.stage = Stage::Exchanging;
                    Action::SendPacket
                },
                SendOutcome::Blocked => {
                    self.stage = Stage::Exchanging;
                    Action::Exchange
                },
                SendOutcome::Failed(error) => {
                    Action::OfferAgain { error, offset: self.offset }
                },
            },
            Event::Exchanged => {
                if self.offset < MESSAGE_SIZE {
                    self.stage = Stage::Offering;
                    Action::Offer { offset: self.offset }
                } else {
                    self.message_count = self.message_count + 1;
                    self.offset = 0;
                    self.stage = Stage::Top;
                    Action::Restart { sent: true }
                }
            },
        }
    }

    /// Starts a round, `elapsed` nanoseconds after the first.
    pub fn begin_round(&mut self, conn: &quiche::Connection, elapsed: u128) -> (action: Action)
        requires
            old(self).wf(),
            old(self)@.stage == Stage::Top,
        ensures
            final(self).wf(),
            old(self)@.leads_to(
                Event::Top { closed: conn_closed(*conn), elapsed },
                final(self)@,
                action,
            ),
    {
        let closed = conn.is_closed();
        self.step(Event::Top { closed, elapsed })
    }

    /// Goes on after packets were polled.
    pub fn after_poll(&mut self, conn: &quiche::Connection) -> (action: Action)
        requires
            old(self).wf(),
            old(self)@.stage == Stage::Polling,
        ensures
            final(self).wf(),
            old(self)@.leads_to(
                Event::Polled { established: conn_established(*conn) },
                final(self)@,
                action,
            ),
    {
        let established = conn.is_established();
        self.step(Event::Polled { established })
    }

    /// Offers the rest of the message to the stream.
    pub fn offer(&mut self, conn: &mut quiche::Connection) -> (action: Action)
        requires
            old(self).wf(),
            old(self)@.stage == Stage::Offering,
        ensures
            final(self).wf(),
            old(self)@.leads_to(
                Event::Offered(
                    conn_sent(*old(conn), STREAM_ID, filling(old(self)@.left()), false).0,
                ),
                final(self)@,
                action,
            ),
            *final(conn) == conn_sent(
                *old(conn),
                STREAM_ID,
                filling(old(self)@.left()),
                false,
            ).1,
    {
        let rest = slice_subrange(self.message.as_slice(), self.offset, self.message.len());
        assert(rest@ =~= filling(self@.left()));
        let outcome = stream_send(conn, STREAM_ID, rest, false);
        self.step(Event::Offered(outcome))
    }
}

/// How many bytes an event put into the stream.
pub open spec fn bytes_taken(event: Event) -> int {
    match event {
        Event::Offered(SendOutcome::Written(n)) => n as int,
        _ => 0,
    }
}

/// How many bytes the events put into the stream.
pub open spec fn total_taken(events: Seq<Event>) -> int
    decreases events.len(),
{
    if events.len() == 0 {
        0
    } else {
        total_taken(events.drop_last()) + bytes_taken(events.last())
    }
}

/// A message counts when it was taken whole, there are never more messages than
/// there are to be, and what the stream took is the messages that count and, of
/// the one after them, as much as was taken.
pub proof fn lemma_messages_are_whole(events: Seq<Event>)
    requires
        State::first().possible(events),
    ensures
        ({
            let state = State::first().run(events);
            &&& 0 <= state.message_count <= MAX_MESSAGE_NUM
            &&& 0 <= state.offset <= MESSAGE_SIZE
            &&& total_taken(events) == state.message_count * MESSAGE_SIZE + state.offset
            &&& state.stage == Stage::Offering ==> state.offset < MESSAGE_SIZE
            &&& state.stage == Stage::Offering || state.stage == Stage::Exchanging
                ==> state.message_count < MAX_MESSAGE_NUM && state.connection_established
            &&& state.stage == Stage::Top || state.stage == Stage::Polling || state.stage
                == Stage::Ended ==> state.offset == 0
            &&& !state.connection_established ==> total_taken(events) == 0
        }),
    decreases events.len(),
{
    if events.len() > 0 {
        lemma_messages_are_whole(events.drop_last());
    }
}

} // verus!
