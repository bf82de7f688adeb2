//! A client that sends a fixed number of large messages and closes.
//!
//! As in the publisher, the client is told what happened and answers with what
//! is to be done next. While a message finds no room, the client goes through
//! rounds of taking packets in and trying again, for a limited time.

use vstd::prelude::*;
use vstd::slice::slice_subrange;

use crate::block::{filling, FILLING};
use crate::handshake::{
    conn_origin, dial_as, is_dialled, lemma_settings_are_usable, DialError, OpenError,
};
use crate::packet::{random_conn_id, NoRandomness, MAX_CONN_ID_LEN};
use crate::quic_config::{
    build_config, config_protocols, config_values, CongestionControl, SetupError,
    TransportSettings, APPLICATION_PROTO, INITIAL_MAX_DATA, INITIAL_MAX_STREAM_DATA,
};
use crate::transport::{
    conn_close, conn_closed, conn_established, conn_sent, stream_send, SendOutcome,
};

verus! {

pub const MAX_PACKET_SIZE: usize = 1350;

/// Nanoseconds in which the connection has to be established.
pub const CONNECTION_TIMEOUT_NS: u128 = 20_000_000_000;

/// Milliseconds without traffic after which the connection is dropped.
pub const IDLE_TIMEOUT_MS: u64 = 60000;

/// 300 KB.
pub const MESSAGE_SIZE: usize = 307200;

pub const MAX_MESSAGES: usize = 10;

/// Nanoseconds to wait before another try.
pub const RETRY_INTERVAL_NS: u128 = 100_000_000;

/// Nanoseconds for which room is waited for in one go.
pub const RETRY_TIMEOUT_NS: u128 = 5_000_000_000;

/// The stream that messages are sent on.
pub const STREAM_ID: u64 = 5;

/// What the client waits to be told.
#[derive(Clone, Copy, Debug, PartialEq, Eq, Structural)]
pub enum Stage {
    /// Whether the connection is closed.
    Top,
    /// That packets were polled.
    Polling,
    /// How much of the message the stream took.
    Offering,
    /// That outgoing packets were flushed.
    Flushing,
    /// For how long room has been waited for.
    Waiting,
    /// How much of the message the stream took at another try.
    Retrying,
    /// Whether the stream could be finished.
    Closing,
    /// Nothing any more.
    Ended,
}

/// What happened.
#[derive(Clone, Copy, Debug)]
pub enum Event {
    /// A round starts, `elapsed` nanoseconds after the first.
    Top { closed: bool, elapsed: u128 },
    /// Packets were taken in and sent out.
    Polled { established: bool },
    /// The rest of the message was offered to the stream.
    Offered(SendOutcome),
    /// Outgoing packets were flushed.
    Flushed,
    /// Room has been waited for for so many nanoseconds.
    Waited { waited: u128 },
    /// The rest of the message was offered again, while waiting for room.
    Retried(SendOutcome),
    /// The end of the stream was offered.
    Finished(SendOutcome),
}

/// What is to be done.
#[derive(Clone, Copy, Debug)]
pub enum Action {
    /// The connection is closed. There is nothing left to do.
    Finish,
    /// The connection was not established in time. There is nothing left to do.
    TimedOut,
    /// Take packets in and send packets out.
    Poll,
    /// Start the next round. A message was sent completely if `sent`.
    Restart { sent: bool },
    /// Offer the message from `offset` on to the stream.
    Offer { stream_id: u64, offset: usize },
    /// Flush outgoing packets.
    Flush,
    /// Wait for a moment, then offer the message from `offset` on.
    Backoff { error: quiche::Error, stream_id: u64, offset: usize },
    /// Start to wait for room.
    Await,
    /// Take packets in, send packets out, then offer the message from `offset`
    /// on again.
    Retry { stream_id: u64, offset: usize },
    /// Wait for a moment, and see for how long room has been waited for.
    Sleep,
    /// Write the end of the stream.
    FinishStream { stream_id: u64 },
    /// Close the connection, then start the next round.
    CloseConnection,
    /// The stream failed.
    Fail(quiche::Error),
    /// The stream could not be finished.
    FailToFinish(SendOutcome),
}

/// What a client knows.
pub struct State {
    pub stage: Stage,
    pub stream_is_open: bool,
    pub stream_id: Option<u64>,
    /// How many messages were started.
    pub message_count: int,
    /// How much of the last one the stream took.
    pub offset: int,
}

impl State {
    pub open spec fn left(self) -> nat {
        (MESSAGE_SIZE - self.offset) as nat
    }

    /// The event is the one that is due, and possible.
    pub open spec fn expects(self, event: Event) -> bool {
        match event {
            Event::Top { .. } => self.stage == Stage::Top,
            Event::Polled { .. } => self.stage == Stage::Polling,
            Event::Offered(outcome) => self.stage == Stage::Offering && outcome.answers(
                self.left(),
            ),
            Event::Flushed => self.stage == Stage::Flushing,
            Event::Waited { .. } => self.stage == Stage::Waiting,
            Event::Retried(outcome) => self.stage == Stage::Retrying && outcome.answers(
                self.left(),
            ),
            Event::Finished(outcome) => self.stage == Stage::Closing && outcome.answers(0),
        }
    }

    /// The client after `open_stream_once`: the stream is opened when the
    /// connection is first seen to be established.
    pub open spec fn opened(self, established: bool) -> State {
        if established && !self.stream_is_open {
            State { stream_is_open: true, stream_id: Some(STREAM_ID), ..self }
        } else {
            self
        }
    }

    /// A message can be sent.
    pub open spec fn can_send(self) -> bool {
        self.stream_is_open && self.message_count < MAX_MESSAGES && self.stream_id is Some
    }

    /// All messages were sent, and the stream is not finished yet.
    pub open spec fn can_finish(self) -> bool {
        self.stream_is_open && self.message_count >= MAX_MESSAGES && self.stream_id is Some
    }

    /// The client goes on with the message, or is done with it.
    pub open spec fn resumed(self) -> State {
        State {
            stage: if self.offset < MESSAGE_SIZE {
                Stage::Offering
            } else {
                Stage::Top
            },
            ..self
        }
    }

    pub open spec fn resume(self) -> Action {
        if self.offset < MESSAGE_SIZE {
            self.next_offer()
        } else {
            Action::Restart { sent: true }
        }
    }

    pub open spec fn next_offer(self) -> Action {
        Action::Offer { stream_id: self.stream_id->0, offset: self.offset as usize }
    }

    pub open spec fn too_late(self, elapsed: u128) -> bool {
        elapsed > CONNECTION_TIMEOUT_NS && !self.stream_is_open
    }

    /// What the client knows after the event.
    pub open spec fn after(self, event: Event) -> State {
        match event {
            Event::Top { closed, elapsed } => State {
                stage: if closed || self.too_late(elapsed) {
                    Stage::Ended
                } else {
                    Stage::Polling
                },
                ..self
            },
            Event::Polled { established } => {
                let opened = self.opened(established);
                if opened.can_send() {
                    State {
                        stage: Stage::Offering,
                        message_count: opened.message_count + 1,
                        offset: 0,
                        ..opened
                    }
                } else if opened.can_finish() {
                    State { stage: Stage::Closing, ..opened }
                } else {
                    State { stage: Stage::Top, ..opened }
                }
            },
            Event::Offered(SendOutcome::Written(n)) => State {
                stage: Stage::Flushing,
                offset: self.offset + n,
                ..self
            },
            Event::Offered(SendOutcome::Blocked) => State { stage: Stage::Waiting, ..self },
            Event::Offered(SendOutcome::Failed(_)) => self,
            Event::Flushed => self.resumed(),
            Event::Waited { waited } => State {
                stage: if waited < RETRY_TIMEOUT_NS {
                    Stage::Retrying
                } else {
                    Stage::Offering
                },
                ..self
            },
            Event::Retried(SendOutcome::Written(n)) => State {
                offset: self.offset + n,
                ..self
            }.resumed(),
            Event::Retried(SendOutcome::Blocked) => State { stage: Stage::Waiting, ..self },
            Event::Retried(SendOutcome::Failed(_)) => State { stage: Stage::Ended, ..self },
            Event::Finished(SendOutcome::Written(_)) => State {
                stage: Stage::Top,
                stream_id: None,
                ..self
            },
            Event::Finished(_) => State { stage: Stage::Ended, ..self },
        }
    }

    /// What is to be done after the event.
    pub open spec fn reaction(self, event: Event) -> Action {
        match event {
            Event::Top { closed, elapsed } => if closed {
                Action::Finish
            } else if self.too_late(elapsed) {
                Action::TimedOut
            } else {
                Action::Poll
            },
            Event::Polled { established } => {
                let opened = self.opened(established);
                if opened.can_send() {
                    Action::Offer { stream_id: opened.stream_id->0, offset: 0 }
                } else if opened.can_finish() {
                    Action::FinishStream { stream_id: opened.stream_id->0 }
                } else {
                    Action::Restart { sent: false }
                }
            },
            Event::Offered(SendOutcome::Written(_)) => Action::Flush,
            Event::Offered(SendOutcome::Blocked) => Action::Await,
            Event::Offered(SendOutcome::Failed(error)) => Action::Backoff {
                error,
                stream_id: self.stream_id->0,
                offset: self.offset as usize,
            },
            Event::Flushed => self.resume(),
            Event::Waited { waited } => if waited < RETRY_TIMEOUT_NS {
                Action::Retry { stream_id: self.stream_id->0, offset: self.offset as usize }
            } else {
                self.next_offer()
            },
            Event::Retried(SendOutcome::Written(n)) => State {
                offset: self.offset + n,
                ..self
            }.resume(),
            Event::Retried(SendOutcome::Blocked) => Action::Sleep,
            Event::Retried(SendOutcome::Failed(error)) => Action::Fail(error),
            Event::Finished(SendOutcome::Written(_)) => Action::CloseConnection,
            Event::Finished(outcome) => Action::FailToFinish(outcome),
        }
    }

    /// The event was due, and it leads to `next` and to `action`.
    pub open spec fn leads_to(self, event: Event, next: State, action: Action) -> bool {
        &&& self.expects(event)
        &&& next == self.after(event)
        &&& action == self.reaction(event)
    }

    /// A message is on its way.
    pub open spec fn sending(self) -> bool {
        ||| self.stage == Stage::Offering
        ||| self.stage == Stage::Flushing
        ||| self.stage == Stage::Waiting
        ||| self.stage == Stage::Retrying
    }
}

/// Sends messages.
pub struct QuicClient {
    message: Vec<u8>,
    stream_id: Option<u64>,
    stream_is_open: bool,
    message_count: usize,
    offset: usize,
    stage: Stage,
}

impl View for QuicClient {
    type V = State;

    closed spec fn view(&self) -> State {
        State {
            stage: self.stage,
            stream_is_open: self.stream_is_open,
            stream_id: self.stream_id,
            message_count: self.message_count as int,
            offset: self.offset as int,
        }
    }
}

impl QuicClient {
    /// No more messages are started than there are to be; a message on its way
    /// has a stream, and an offer offers something.
    pub closed spec fn wf(self) -> bool {
        &&& self.message@ == filling(MESSAGE_SIZE as nat)
        &&& self.message_count <= MAX_MESSAGES
        &&& self.offset <= MESSAGE_SIZE
        &&& self@.sending() ==> self.stream_id is Some
        &&& self@.sending() && self.stage != Stage::Flushing ==> self.offset < MESSAGE_SIZE
        &&& self.stage == Stage::Closing ==> self.stream_id is Some
    }

    /// A client in front of its first round.
    pub fn new() -> (client: QuicClient)
        ensures
            client.wf(),
            client@ == (State {
                stage: Stage::Top,
                stream_is_open: false,
                stream_id: None,
                message_count: 0,
                offset: 0,
            }),
    {
        let message: Vec<u8> = vec![FILLING; MESSAGE_SIZE];
        assert(message@ =~= filling(MESSAGE_SIZE as nat));
        QuicClient {
            message,
            stream_id: None,
            stream_is_open: false,
            message_count: 0,
            offset: 0,
            stage: Stage::Top,
        }
    }

    /// How many messages were started.
    pub fn message_count(&self) -> (count: usize)
        ensures
            count == self@.message_count,
    {
        self.message_count
    }

    /// Opens the stream when the connection is first seen to be established,
    /// and tells whether that is now.
    pub fn open_stream_once(&mut self, established: bool) -> (opened: bool)
        requires
            old(self).wf(),
        ensures
            final(self).wf(),
            final(self)@ == old(self)@.opened(established),
            opened == (established && !old(self)@.stream_is_open),
    {
        if established && !self.stream_is_open {
            self.stream_is_open = true;
            self.stream_id = Some(STREAM_ID);
            return true;
        }
        false
    }

    /// Goes on with the message, or is done with it.
    fn resume(&mut self) -> (action: Action)
        requires
            old(self).message@ == filling(MESSAGE_SIZE as nat),
            old(self).message_count <= MAX_MESSAGES,
            old(self).offset <= MESSAGE_SIZE,
            old(self).stream_id is Some,
        ensures
            final(self).wf(),
            final(self)@ == old(self)@.resumed(),
            action == old(self)@.resume(),
    {
        if self.offset < MESSAGE_SIZE {
            self.stage = Stage::Offering;
            Action::Offer { stream_id: self.stream_id.unwrap(), offset: self.offset }
        } else {
            self.stage = Stage::Top;
            Action::Restart { sent: true }
        }
    }

    /// Takes in what happened and says what is to be done.
    pub fn step(&mut self, event: Event) -> (action: Action)
        requires
            old(self).wf(),
            old(self)@.expects(event),
        ensures
            final(self).wf(),
            old(self)@.leads_to(event, final(self)@, action),
    {
        match event {
            Event::Top { closed, elapsed } => {
                if closed {
                    self.stage = Stage::Ended;
                    Action::Finish
                } else if elapsed > CONNECTION_TIMEOUT_NS && !self.stream_is_open {
                    self.stage = Stage::Ended;
                    Action::TimedOut
                } else {
                    self.stage = Stage::Polling;
                    Action::Poll
                }
            },
            Event::Polled { established } => {
                self.open_stream_once(established);
                match self.stream_id {
                    Some(stream_id) if self.stream_is_open => {
                        if self.message_count < MAX_MESSAGES {
                            self.message_count = self.message_count + 1;
                            self.offset = 0;
                            self.stage = Stage::Offering;
                            Action::Offer { stream_id, offset: 0 }
                        } else {
                            self.stage = Stage::Closing;
                            Action::FinishStream { stream_id }
                        }
                    },
                    _ => {
                        self.stage = Stage::Top;
                        Action::Restart { sent: false }
                    },
                }
            },
            Event::Offered(outcome) => match outcome {
                SendOutcome::Written(n) => {
                    self.offset = self.offset + n;
                    self.stage = Stage::Flushing;
                    Action::Flush
                },
                SendOutcome::Blocked => {
                    self.stage = Stage::Waiting;
                    Action::Await
                },
                SendOutcome::Failed(error) => {
                    Action::Backoff {
                        error,
                        stream_id: self.stream_id.unwrap(),
                        offset: self.offset,
                    }
                },
            },
            Event::Flushed => self.resume(),
            Event::Waited { waited } => {
                let stream_id: u64 = self.stream_id.unwrap();
                if waited < RETRY_TIMEOUT_NS {
                    self.stage = Stage::Retrying;
                    Action::Retry { stream_id, offset: self.offset }
                } else {
                    self.stage = Stage::Offering;
                    Action::Offer { stream_id, offset: self.offset }
                }
            },
            Event::Retried(outcome) => match outcome {
                SendOutcome::Written(n) => {
                    self.offset = self.offset + n;
                    self.resume()
                },
                SendOutcome::Blocked => {
                    self.stage = Stage::Waiting;
                    Action::Sleep
                },
                SendOutcome::Failed(error) => {
                    self.stage = Stage::Ended;
                    Action::Fail(error)
                },
            },
            Event::Finished(outcome) => match outcome {
                SendOutcome::Written(_) => {
                    self.stream_id = None;
                    self.stage = Stage::Top;
                    Action::CloseConnection
                },
                _ => {
                    self.stage = Stage::Ended;
                    Action::FailToFinish(outcome)
                },
            },
        }
    }
}

/// The reason that the client closes its connection with: `Done`.
pub const CLOSE_REASON: [u8; 4] = [68, 111, 110, 101];

impl QuicClient {
    /// Starts a round, `elapsed` nanoseconds after the first.
    pub fn begin_round(&mut self, conn: &quiche::Connection, elapsed: u128) -> (action: Action)
        requires
            old(self).wf(),
            old(self)@.stage == Stage::Top,
        ensures
            final(self).wf(),
            old(self)@.leads_to(
                Event::Top { closed: conn_closed(*conn), elapsed },
                final(self)@,
                action,
            ),
    {
        let closed = conn.is_closed();
        self.step(Event::Top { closed, elapsed })
    }

    /// Goes on after packets were polled.
    pub fn after_poll(&mut self, conn: &quiche::Connection) -> (action: Action)
        requires
            old(self).wf(),
            old(self)@.stage == Stage::Polling,
        ensures
            final(self).wf(),
            old(self)@.leads_to(
                Event::Polled { established: conn_established(*conn) },
                final(self)@,
                action,
            ),
    {
        let established = conn.is_established();
        self.step(Event::Polled { established })
    }

    /// Offers the rest of the message to the stream.
    pub fn send_message(&mut self, conn: &mut quiche::Connection) -> (action: Action)
        requires
            old(self).wf(),
            old(self)@.stage == Stage::Offering,
        ensures
            final(self).wf(),
            old(self)@.leads_to(
                Event::Offered(
                    conn_sent(
                        *old(conn),
                        old(self)@.stream_id->0,
                        filling(old(self)@.left()),
                        false,
                    ).0,
                ),
                final(self)@,
                action,
            ),
            *final(conn) == conn_sent(
                *old(conn),
                old(self)@.stream_id->0,
                filling(old(self)@.left()),
                false,
            ).1,
    {
        let outcome = self.offer(conn);
        self.step(Event::Offered(outcome))
    }

    /// Offers the rest of the message to the stream again, while waiting for
    /// room.
    pub fn retry_message(&mut self, conn: &mut quiche::Connection) -> (action: Action)
        requires
            old(self).wf(),
            old(self)@.stage == Stage::Retrying,
        ensures
            final(self).wf(),
            old(self)@.leads_to(
                Event::Retried(
                    conn_sent(
                        *old(conn),
                        old(self)@.stream_id->0,
                        filling(old(self)@.left()),
                        false,
                    ).0,
                ),
                final(self)@,
                action,
            ),
            *final(conn) == conn_sent(
                *old(conn),
                old(self)@.stream_id->0,
                filling(old(self)@.left()),
                false,
            ).1,
    {
        let outcome = self.offer(conn);
        self.step(Event::Retried(outcome))
    }

    fn offer(&self, conn: &mut quiche::Connection) -> (outcome: SendOutcome)
        requires
            self.wf(),
            self@.stage == Stage::Offering || self@.stage == Stage::Retrying,
        ensures
            outcome.answers(self@.left()),
            (outcome, *final(conn)) == conn_sent(
                *old(conn),
                self@.stream_id->0,
                filling(self@.left()),
                false,
            ),
    {
        let rest = slice_subrange(self.message.as_slice(), self.offset, self.message.len());
        assert(rest@ =~= filling(self@.left()));
        stream_send(conn, self.stream_id.unwrap(), rest, false)
    }

    /// Writes the end of the stream.
    pub fn close_stream(&mut self, conn: &mut quiche::Connection) -> (action: Action)
        requires
            old(self).wf(),
            old(self)@.stage == Stage::Closing,
        ensures
            final(self).wf(),
            old(self)@.leads_to(
                Event::Finished(
                    conn_sent(*old(conn), old(self)@.stream_id->0, Seq::empty(), true).0,
                ),
                final(self)@,
                action,
            ),
            *final(conn) == conn_sent(
                *old(conn),
                old(self)@.stream_id->0,
                Seq::empty(),
                true,
            ).1,
    {
        let nothing: Vec<u8> = Vec::new();
        let outcome = stream_send(conn, self.stream_id.unwrap(), nothing.as_slice(), true);
        self.step(Event::Finished(outcome))
    }

    /// The settings of the client.
    #[verifier::allow_in_spec]
    pub fn settings() -> TransportSettings
        returns
            (TransportSettings {
                max_idle_timeout: IDLE_TIMEOUT_MS,
                max_recv_udp_payload_size: MAX_PACKET_SIZE,
                max_send_udp_payload_size: MAX_PACKET_SIZE,
                initial_max_data: INITIAL_MAX_DATA,
                initial_max_stream_data_bidi_local: INITIAL_MAX_STREAM_DATA,
                initial_max_stream_data_bidi_remote: INITIAL_MAX_STREAM_DATA,
                initial_max_stream_data_uni: INITIAL_MAX_STREAM_DATA,
                initial_max_streams_bidi: 100,
                initial_max_streams_uni: 100,
                max_ack_delay: 25,
                disable_active_migration: false,
                hystart: true,
                max_pacing_rate: None,
                verify_peer: false,
                congestion: CongestionControl::Cubic,
                datagrams: None,
            }),
    {
        TransportSettings {
            max_idle_timeout: IDLE_TIMEOUT_MS,
            max_recv_udp_payload_size: MAX_PACKET_SIZE,
            max_send_udp_payload_size: MAX_PACKET_SIZE,
            initial_max_data: INITIAL_MAX_DATA,
            initial_max_stream_data_bidi_local: INITIAL_MAX_STREAM_DATA,
            initial_max_stream_data_bidi_remote: INITIAL_MAX_STREAM_DATA,
            initial_max_stream_data_uni: INITIAL_MAX_STREAM_DATA,
            initial_max_streams_bidi: 100,
            initial_max_streams_uni: 100,
            max_ack_delay: 25,
            disable_active_migration: false,
            hystart: true,
            max_pacing_rate: None,
            verify_peer: false,
            congestion: CongestionControl::Cubic,
            datagrams: None,
        }
    }

    /// The configuration of the client.
    pub fn create_config() -> (result: Result<quiche::Config, SetupError>)
        ensures
            result matches Ok(config) ==> {
                &&& config_values(config) == Self::settings().values()
                &&& config_protocols(config) == seq![APPLICATION_PROTO@]
            },
            exists|given: &TransportSettings, proto: &[u8]|
                {
                    &&& #[trigger] call_ensures(build_config, (given, proto), result)
                    &&& *given == Self::settings()
                    &&& proto@ == APPLICATION_PROTO@
                },
    {
        let proto: [u8; 6] = APPLICATION_PROTO;
        let build = build_config;
        build(&Self::settings(), proto.as_slice())
    }

    /// Makes the client's connection, under a random identifier.
    pub fn dial(info: &quiche::RecvInfo) -> (result: Result<quiche::Connection, DialError>)
        ensures
            result matches Ok(conn) ==> {
                let id = conn_origin(conn).source_id;
                &&& is_dialled(conn, Self::settings(), id, *info)
                &&& id.len() == MAX_CONN_ID_LEN
            },
            exists|built: Result<quiche::Config, SetupError>, drawn: Result<Vec<u8>, NoRandomness>|
                {
                    &&& #[trigger] call_ensures(QuicClient::create_config, (), built)
                    &&& #[trigger] call_ensures(random_conn_id, (), drawn)
                    &&& built matches Err(error) ==> result == Err::<quiche::Connection, _>(
                        DialError::Setup(error),
                    )
                    &&& built is Ok ==> !(result matches Err(DialError::Setup(_)))
                    &&& built is Ok ==> (drawn is Err <==> (result matches Err(
                        DialError::Open(OpenError::NoRandomness),
                    )))
                    &&& result matches Ok(conn) ==> conn_origin(conn).source_id == drawn->Ok_0@
                    &&& call_ensures(dial_as, (built, drawn, info), result)
                },
    {
        proof {
            lemma_settings_are_usable();
        }
        let configure = QuicClient::create_config;
        let draw = random_conn_id;
        let make = dial_as;
        make(configure(), draw(), info)
    }
}

/// Closes the connection, with the application's code for no error.
pub fn close_connection(conn: &mut quiche::Connection) -> (result: Result<(), quiche::Error>)
    ensures
        (result, *final(conn)) == conn_close(*old(conn), true, 0, CLOSE_REASON@),
{
    let reason: [u8; 4] = CLOSE_REASON;
    conn.close(true, 0, reason.as_slice())
}

impl State {
    /// What a client knows in front of its first round.
    pub open spec fn first() -> State {
        State {
            stage: Stage::Top,
            stream_is_open: false,
            stream_id: None,
            message_count: 0,
            offset: 0,
        }
    }

    /// What the client knows after all the events.
    pub open spec fn run(self, events: Seq<Event>) -> State
        decreases events.len(),
    {
        if events.len() == 0 {
            self
        } else {
            self.run(events.drop_last()).after(events.last())
        }
    }

    /// Each event was due when it happened.
    pub open spec fn possible(self, events: Seq<Event>) -> bool
        decreases events.len(),
    {
        events.len() == 0 || {
            &&& self.possible(events.drop_last())
            &&& self.run(events.drop_last()).expects(events.last())
        }
    }
}

/// How many bytes an event put into the stream.
pub open spec fn bytes_taken(event: Event) -> int {
    match event {
        Event::Offered(SendOutcome::Written(n)) => n as int,
        Event::Retried(SendOutcome::Written(n)) => n as int,
        _ => 0,
    }
}

/// How many bytes the events put into the stream.
pub open spec fn total_taken(events: Seq<Event>) -> int
    decreases events.len(),
{
    if events.len() == 0 {
        0
    } else {
        total_taken(events.drop_last()) + bytes_taken(events.last())
    }
}

/// Messages are sent whole, one after the other, and never more than there are
/// to be: what the stream took is all of the messages but the last, and of the
/// last as much as was taken. Outside of sending, that is all of it.
pub proof fn lemma_messages_are_whole(events: Seq<Event>)
    requires
        State::first().possible(events),
    ensures
        ({
            let state = State::first().run(events);
            &&& 0 <= state.message_count <= MAX_MESSAGES
            &&& 0 <= state.offset <= MESSAGE_SIZE
            &&& total_taken(events) == if state.message_count == 0 {
                0
            } else {
                (state.message_count - 1) * MESSAGE_SIZE + state.offset
            }
            &&& state.sending() ==> state.stream_id is Some && state.message_count > 0
            &&& state.sending() && state.stage != Stage::Flushing ==> state.offset < MESSAGE_SIZE
            &&& !state.sending() && state.stage != Stage::Ended && state.message_count > 0
                ==> state.offset == MESSAGE_SIZE
            &&& state.stream_id is Some ==> state.stream_is_open && state.stream_id == Some(
                STREAM_ID,
            )
            &&& state.stage == Stage::Closing ==> state.can_finish()
            &&& state.stream_is_open && state.stream_id is None ==> state.message_count
                == MAX_MESSAGES && !state.sending() && state.stage != Stage::Closing
                && state.offset == MESSAGE_SIZE
            &&& !state.stream_is_open ==> state.message_count == 0
        }),
    decreases events.len(),
{
    if events.len() > 0 {
        lemma_messages_are_whole(events.drop_last());
    }
}

/// The end of the stream is written only after every byte of every message was
/// taken, and nothing is put into the stream after that.
pub proof fn lemma_finishes_after_all(events: Seq<Event>)
    requires
        State::first().possible(events),
    ensures
        ({
            let state = State::first().run(events);
            let done = state.stage == Stage::Closing || (state.stream_is_open
                && state.stream_id is None);
            done ==> total_taken(events) == MAX_MESSAGES * MESSAGE_SIZE && !state.sending()
        }),
{
    lemma_messages_are_whole(events);
}

/// The stream is opened once and finished once: an open one stays open, and after
/// it was finished there is no stream any more, nothing is sent, and nothing is
/// finished again.
pub proof fn lemma_opens_and_finishes_once(state: State, events: Seq<Event>)
    requires
        state.stream_is_open,
        state.possible(events),
    ensures
        state.run(events).stream_is_open,
        state.stage == Stage::Top && state.stream_id is None ==> {
            &&& state.run(events).stream_id is None
            &&& state.run(events).stage != Stage::Closing
            &&& !state.run(events).sending()
            &&& state.run(events).message_count == state.message_count
        },
    decreases events.len(),
{
    if events.len() > 0 {
        lemma_opens_and_finishes_once(state, events.drop_last());
    }
}

} // verus!
