//! The clients.

use vstd::prelude::*;
use vstd::utf8::{decode_utf8, encode_utf8, valid_utf8};

use crate::burst_client;
use crate::burst_client::BurstClient;
use crate::echo_client;
use crate::echo_client::{answer, converse, hear, listen, poll_timeout_ms, Exchange, Heard};
use crate::ping_client;
use crate::ping_client::{wait_ns, PingStep, Pinger};
use crate::quic_client;
use crate::quic_client::{close_connection, QuicClient};
use crate::transport::{
    conn_close, conn_closed, conn_established, conn_read, conn_sent, ReadOutcome, SendOutcome,
};

verus! {

/// So many bytes of a message: each is 42.
pub open spec fn message_bytes(bytes: Seq<u8>, len: int) -> bool {
    bytes.len() == len && forall|i: int| 0 <= i < len ==> #[trigger] bytes[i] == 42
}

/// A closed connection ends the client in peace, whatever is known of its
/// stream; a connection that is not established in twenty seconds ends it too;
/// and nothing else keeps a round from going on.
pub proof fn lemma_client_round(
    client: &mut QuicClient,
    closed: bool,
    elapsed: u128,
    action: quic_client::Action,
)
    requires
        call_ensures(
            QuicClient::step,
            (client, quic_client::Event::Top { closed, elapsed }),
            action,
        ),
    ensures
        closed <==> action is Finish,
        action is TimedOut <==> (!closed && !old(client)@.stream_is_open && elapsed
            > 20_000_000_000),
        !(action is Finish) && !(action is TimedOut) ==> action is Poll && final(client)@.stage
            == quic_client::Stage::Polling,
        action is Finish || action is TimedOut ==> final(client)@.stage
            == quic_client::Stage::Ended,
        final(client)@.stream_is_open == old(client)@.stream_is_open,
        final(client)@.stream_id == old(client)@.stream_id,
        final(client)@.message_count == old(client)@.message_count,
{
}

/// After polling an open client sends its next message, from the front, as long
/// as there were fewer than ten; then it finishes its stream, once; and then it
/// only waits. A client whose connection is not established does nothing.
pub proof fn lemma_client_polled(
    client: &mut QuicClient,
    established: bool,
    action: quic_client::Action,
)
    requires
        call_ensures(QuicClient::step, (client, quic_client::Event::Polled { established }), action),
    ensures
        ({
            let before = old(client)@;
            let after = final(client)@;
            let opens = established && !before.stream_is_open;
            let stream_id = if opens {
                Some(5u64)
            } else {
                before.stream_id
            };
            let open = before.stream_is_open || established;
            &&& after.stream_is_open == open
            &&& after.stream_id == stream_id
            &&& action is Offer <==> (open && stream_id is Some && before.message_count < 10)
            &&& action is FinishStream <==> (open && stream_id is Some && before.message_count
                >= 10)
            &&& action matches quic_client::Action::Offer { stream_id: id, offset } ==> {
                &&& Some(id) == stream_id
                &&& offset == 0
                &&& after.offset == 0
                &&& after.message_count == before.message_count + 1
                &&& after.stage == quic_client::Stage::Offering
            }
            &&& action matches quic_client::Action::FinishStream { stream_id: id } ==> {
                &&& Some(id) == stream_id
                &&& after.message_count == before.message_count
                &&& after.stage == quic_client::Stage::Closing
            }
            &&& !(action is Offer) && !(action is FinishStream) ==> {
                &&& action == (quic_client::Action::Restart { sent: false })
                &&& after.message_count == before.message_count
                &&& after.stage == quic_client::Stage::Top
            }
        }),
{
}

/// What the stream took of a message is behind it; where there is no room it is
/// waited for; and a failure is met with another try.
pub proof fn lemma_client_offered(
    client: &mut QuicClient,
    outcome: SendOutcome,
    action: quic_client::Action,
)
    requires
        call_ensures(QuicClient::step, (client, quic_client::Event::Offered(outcome)), action),
    ensures
        outcome matches SendOutcome::Written(n) ==> action is Flush && final(client)@.offset
            == old(client)@.offset + n && final(client)@.stage == quic_client::Stage::Flushing,
        outcome is Blocked ==> action is Await && final(client)@.offset == old(client)@.offset
            && final(client)@.stage == quic_client::Stage::Waiting,
        outcome matches SendOutcome::Failed(error) ==> {
            &&& action matches quic_client::Action::Backoff { error: e, stream_id, offset }
            &&& e == error
            &&& old(client)@.stream_id is Some ==> stream_id == old(client)@.stream_id->0
            &&& 0 <= old(client)@.offset <= 307200 ==> offset == old(client)@.offset
            &&& final(client)@ == old(client)@
        },
        final(client)@.message_count == old(client)@.message_count,
        final(client)@.stream_id == old(client)@.stream_id,
        final(client)@.stream_is_open == old(client)@.stream_is_open,
{
}

/// A message is offered again, from where it stands, until all of its 307200
/// bytes were taken; then the next round starts.
pub proof fn lemma_client_flushed(client: &mut QuicClient, action: quic_client::Action)
    requires
        call_ensures(QuicClient::step, (client, quic_client::Event::Flushed), action),
        0 <= old(client)@.offset,
    ensures
        old(client)@.offset < 307200 ==> {
            &&& action matches quic_client::Action::Offer { stream_id, offset }
            &&& offset == old(client)@.offset
            &&& old(client)@.stream_id is Some ==> stream_id == old(client)@.stream_id->0
            &&& final(client)@.stage == quic_client::Stage::Offering
        },
        old(client)@.offset >= 307200 ==> action == (quic_client::Action::Restart { sent: true })
            && final(client)@.stage == quic_client::Stage::Top,
        final(client)@.offset == old(client)@.offset,
        final(client)@.message_count == old(client)@.message_count,
        final(client)@.stream_id == old(client)@.stream_id,
        final(client)@.stream_is_open == old(client)@.stream_is_open,
{
}

/// Room is waited for, for less than five seconds in one go; and the message is
/// not given up then, but offered as at first.
pub proof fn lemma_client_waited(
    client: &mut QuicClient,
    waited: u128,
    action: quic_client::Action,
)
    requires
        call_ensures(QuicClient::step, (client, quic_client::Event::Waited { waited }), action),
        0 <= old(client)@.offset <= 307200,
    ensures
        waited < 5_000_000_000 ==> {
            &&& action matches quic_client::Action::Retry { stream_id, offset }
            &&& offset == old(client)@.offset
            &&& old(client)@.stream_id is Some ==> stream_id == old(client)@.stream_id->0
            &&& final(client)@.stage == quic_client::Stage::Retrying
        },
        waited >= 5_000_000_000 ==> {
            &&& action matches quic_client::Action::Offer { stream_id, offset }
            &&& offset == old(client)@.offset
            &&& old(client)@.stream_id is Some ==> stream_id == old(client)@.stream_id->0
            &&& final(client)@.stage == quic_client::Stage::Offering
        },
        final(client)@.offset == old(client)@.offset,
        final(client)@.message_count == old(client)@.message_count,
        final(client)@.stream_id == old(client)@.stream_id,
        final(client)@.stream_is_open == old(client)@.stream_is_open,
{
}

/// A try that finds room goes on with the message or is the end of it; one that
/// finds none is followed by another wait; and one that fails ends the client.
pub proof fn lemma_client_retried(
    client: &mut QuicClient,
    outcome: SendOutcome,
    action: quic_client::Action,
)
    requires
        call_ensures(QuicClient::step, (client, quic_client::Event::Retried(outcome)), action),
        0 <= old(client)@.offset <= 307200,
    ensures
        outcome matches SendOutcome::Written(n) ==> {
            &&& final(client)@.offset == old(client)@.offset + n
            &&& old(client)@.offset + n < 307200 ==> action is Offer && action->Offer_offset
                == old(client)@.offset + n && final(client)@.stage == quic_client::Stage::Offering
            &&& old(client)@.offset + n >= 307200 ==> action == (quic_client::Action::Restart {
                sent: true,
            }) && final(client)@.stage == quic_client::Stage::Top
        },
        outcome is Blocked ==> action is Sleep && final(client)@.offset == old(client)@.offset
            && final(client)@.stage == quic_client::Stage::Waiting,
        outcome matches SendOutcome::Failed(error) ==> action == quic_client::Action::Fail(error)
            && final(client)@.stage == quic_client::Stage::Ended,
        final(client)@.message_count == old(client)@.message_count,
        final(client)@.stream_id == old(client)@.stream_id,
        final(client)@.stream_is_open == old(client)@.stream_is_open,
{
}

/// A finished stream is forgotten, and its connection closed; a stream that
/// cannot be finished ends the client.
pub proof fn lemma_client_finished(
    client: &mut QuicClient,
    outcome: SendOutcome,
    action: quic_client::Action,
)
    requires
        call_ensures(QuicClient::step, (client, quic_client::Event::Finished(outcome)), action),
    ensures
        outcome is Written ==> action is CloseConnection && final(client)@.stream_id is None
            && final(client)@.stage == quic_client::Stage::Top,
        !(outcome is Written) ==> action == quic_client::Action::FailToFinish(outcome) && final(
            client
        )@.stage == quic_client::Stage::Ended,
        final(client)@.stream_is_open == old(client)@.stream_is_open,
        final(client)@.message_count == old(client)@.message_count,
{
}

/// Nothing happens to a client that has ended, and to any other exactly what it
/// waits for.
pub proof fn lemma_client_waits_for_one_event(
    client: &mut QuicClient,
    event: quic_client::Event,
    action: quic_client::Action,
)
    requires
        call_ensures(QuicClient::step, (client, event), action),
    ensures
        old(client)@.stage != quic_client::Stage::Ended,
        event is Top <==> old(client)@.stage == quic_client::Stage::Top,
        event is Polled <==> old(client)@.stage == quic_client::Stage::Polling,
        event is Offered <==> old(client)@.stage == quic_client::Stage::Offering,
        event is Flushed <==> old(client)@.stage == quic_client::Stage::Flushing,
        event is Waited <==> old(client)@.stage == quic_client::Stage::Waiting,
        event is Retried <==> old(client)@.stage == quic_client::Stage::Retrying,
        event is Finished <==> old(client)@.stage == quic_client::Stage::Closing,
{
}

/// Any time may be told, and any news of the connection.
pub proof fn lemma_client_takes_any_news(client: &mut QuicClient, flag: bool, elapsed: u128)
    requires
        old(client).wf(),
    ensures
        old(client)@.stage == quic_client::Stage::Top ==> call_requires(
            QuicClient::step,
            (client, quic_client::Event::Top { closed: flag, elapsed }),
        ),
        old(client)@.stage == quic_client::Stage::Polling ==> call_requires(
            QuicClient::step,
            (client, quic_client::Event::Polled { established: flag }),
        ),
        old(client)@.stage == quic_client::Stage::Flushing ==> call_requires(
            QuicClient::step,
            (client, quic_client::Event::Flushed),
        ),
        old(client)@.stage == quic_client::Stage::Waiting ==> call_requires(
            QuicClient::step,
            (client, quic_client::Event::Waited { waited: elapsed }),
        ),
{
}

/// The stream is opened when the connection is first seen to be established, as
/// stream 5, and never again.
pub proof fn lemma_open_stream_once(client: &mut QuicClient, established: bool, opened: bool)
    requires
        call_ensures(QuicClient::open_stream_once, (client, established), opened),
    ensures
        opened <==> (established && !old(client)@.stream_is_open),
        opened ==> final(client)@.stream_is_open && final(client)@.stream_id == Some(5u64),
        !opened ==> final(client)@ == old(client)@,
        final(client)@.message_count == old(client)@.message_count,
        final(client)@.stage == old(client)@.stage,
{
}

/// A new client has no stream and has sent nothing.
pub proof fn lemma_new_client(client: QuicClient)
    requires
        call_ensures(QuicClient::new, (), client),
    ensures
        client.wf(),
        client@.stage == quic_client::Stage::Top,
        !client@.stream_is_open,
        client@.stream_id is None,
        client@.message_count == 0,
{
}

/// A round looks at the connection.
pub proof fn lemma_client_begins_round(
    client: &mut QuicClient,
    conn: &quiche::Connection,
    elapsed: u128,
    action: quic_client::Action,
)
    requires
        call_ensures(QuicClient::begin_round, (client, conn, elapsed), action),
    ensures
        conn_closed(*conn) <==> action is Finish,
        action is TimedOut <==> (!conn_closed(*conn) && !old(client)@.stream_is_open && elapsed
            > 20_000_000_000),
        !(action is Finish) && !(action is TimedOut) ==> action is Poll,
        action is Finish || action is TimedOut <==> final(client)@.stage
            == quic_client::Stage::Ended,
{
}

/// After polling the connection tells whether the stream can be opened.
pub proof fn lemma_client_after_poll(
    client: &mut QuicClient,
    conn: &quiche::Connection,
    action: quic_client::Action,
)
    requires
        call_ensures(QuicClient::after_poll, (client, conn), action),
    ensures
        final(client)@.stream_is_open == (old(client)@.stream_is_open || conn_established(*conn)),
        !old(client)@.stream_is_open && conn_established(*conn) ==> final(client)@.stream_id
            == Some(5u64),
        old(client)@.stream_is_open || !conn_established(*conn) ==> final(client)@.stream_id
            == old(client)@.stream_id,
        action is Offer <==> (final(client)@.stream_is_open && final(client)@.stream_id is Some
            && old(client)@.message_count < 10),
        action is FinishStream <==> (final(client)@.stream_is_open && final(
            client
        )@.stream_id is Some && old(client)@.message_count >= 10),
{
}

/// What is offered, at first or again, is the rest of the message, on the
/// client's stream, and does not end the stream.
pub proof fn lemma_client_sends(
    client: &mut QuicClient,
    conn: &mut quiche::Connection,
    action: quic_client::Action,
    rest: Seq<u8>,
)
    requires
        call_ensures(QuicClient::send_message, (client, conn), action) || call_ensures(
            QuicClient::retry_message,
            (client, conn),
            action,
        ),
        0 <= old(client)@.offset <= 307200,
        message_bytes(rest, 307200 - old(client)@.offset),
    ensures
        ({
            let (answer, after) = conn_sent(*old(conn), old(client)@.stream_id->0, rest, false);
            &&& *final(conn) == after
            &&& answer matches SendOutcome::Written(n) ==> final(client)@.offset == old(
                client
            )@.offset + n
            &&& !(answer is Written) ==> final(client)@.offset == old(client)@.offset
        }),
        final(client)@.message_count == old(client)@.message_count,
{
    assert(crate::block::filling(old(client)@.left()) =~= rest);
}

/// The end of the stream is written without any more bytes.
pub proof fn lemma_client_closes_stream(
    client: &mut QuicClient,
    conn: &mut quiche::Connection,
    action: quic_client::Action,
)
    requires
        call_ensures(QuicClient::close_stream, (client, conn), action),
    ensures
        ({
            let (answer, after) = conn_sent(
                *old(conn),
                old(client)@.stream_id->0,
                Seq::<u8>::empty(),
                true,
            );
            &&& *final(conn) == after
            &&& answer is Written <==> action is CloseConnection
            &&& answer is Written ==> final(client)@.stream_id is None
            &&& !(answer is Written) ==> action == quic_client::Action::FailToFinish(answer)
        }),
{
}

/// The connection is closed by the application, with code 0, and `Done` for the
/// reason.
pub proof fn lemma_closes_connection(
    conn: &mut quiche::Connection,
    result: Result<(), quiche::Error>,
)
    requires
        call_ensures(close_connection, (conn,), result),
    ensures
        (result, *final(conn)) == conn_close(
            *old(conn),
            true,
            0,
            seq![68u8, 111u8, 110u8, 101u8],
        ),
{
    assert(quic_client::CLOSE_REASON@ =~= seq![68u8, 111u8, 110u8, 101u8]);
}

/// A closed connection ends the client that sends in one burst; a connection
/// that is not established in five seconds ends it too.
pub proof fn lemma_burst_round(
    client: &mut BurstClient,
    closed: bool,
    elapsed: u128,
    action: burst_client::Action,
)
    requires
        call_ensures(
            BurstClient::step,
            (client, burst_client::Event::Top { closed, elapsed }),
            action,
        ),
    ensures
        closed <==> action is Finish,
        action is GiveUp <==> (!closed && !old(client)@.connection_established && elapsed
            > 5_000_000_000),
        !(action is Finish) && !(action is GiveUp) ==> action is Poll && final(client)@.stage
            == burst_client::Stage::Polling,
        action is Finish || action is GiveUp ==> final(client)@.stage == burst_client::Stage::Ended,
        final(client)@.message_count == old(client)@.message_count,
        final(client)@.connection_established == old(client)@.connection_established,
{
}

/// Once the connection was seen to be established, every round sends a message,
/// from the front, until a hundred were sent.
pub proof fn lemma_burst_polled(
    client: &mut BurstClient,
    established: bool,
    action: burst_client::Action,
)
    requires
        call_ensures(
            BurstClient::step,
            (client, burst_client::Event::Polled { established }),
            action,
        ),
    ensures
        final(client)@.connection_established == (old(client)@.connection_established
            || established),
        action is Offer <==> (final(client)@.connection_established && old(client)@.message_count
            < 100),
        action is Offer ==> action == (burst_client::Action::Offer { offset: 0 }) && final(
            client
        )@.stage == burst_client::Stage::Offering && final(client)@.offset == 0,
        !(action is Offer) ==> action == (burst_client::Action::Restart { sent: false }) && final(
            client
        )@.stage == burst_client::Stage::Top,
        final(client)@.message_count == old(client)@.message_count,
{
}

/// What the stream took is behind the message; a full stream calls for an
/// exchange of packets; a failure for another offer.
pub proof fn lemma_burst_offered(
    client: &mut BurstClient,
    outcome: SendOutcome,
    action: burst_client::Action,
)
    requires
        call_ensures(BurstClient::step, (client, burst_client::Event::Offered(outcome)), action),
        0 <= old(client)@.offset <= 307200,
    ensures
        outcome matches SendOutcome::Written(n) ==> action is SendPacket && final(client)@.offset
            == old(client)@.offset + n && final(client)@.stage == burst_client::Stage::Exchanging,
        outcome is Blocked ==> action is Exchange && final(client)@.offset == old(client)@.offset
            && final(client)@.stage == burst_client::Stage::Exchanging,
        outcome matches SendOutcome::Failed(error) ==> {
            &&& action matches burst_client::Action::OfferAgain { error: e, offset }
            &&& e == error
            &&& offset == old(client)@.offset
            &&& final(client)@ == old(client)@
        },
        final(client)@.message_count == old(client)@.message_count,
        final(client)@.connection_established == old(client)@.connection_established,
{
}

/// A message counts when all of its 307200 bytes were taken, and is offered from
/// where it stands until then.
pub proof fn lemma_burst_exchanged(client: &mut BurstClient, action: burst_client::Action)
    requires
        call_ensures(BurstClient::step, (client, burst_client::Event::Exchanged), action),
        0 <= old(client)@.offset,
    ensures
        old(client)@.offset < 307200 ==> {
            &&& action matches burst_client::Action::Offer { offset }
            &&& offset == old(client)@.offset
            &&& final(client)@.offset == old(client)@.offset
            &&& final(client)@.message_count == old(client)@.message_count
            &&& final(client)@.stage == burst_client::Stage::Offering
        },
        old(client)@.offset >= 307200 ==> {
            &&& action == (burst_client::Action::Restart { sent: true })
            &&& final(client)@.message_count == old(client)@.message_count + 1
            &&& final(client)@.offset == 0
            &&& final(client)@.stage == burst_client::Stage::Top
        },
        final(client)@.connection_established == old(client)@.connection_established,
{
}

/// Nothing happens to a client that has ended, and to any other exactly what it
/// waits for.
pub proof fn lemma_burst_waits_for_one_event(
    client: &mut BurstClient,
    event: burst_client::Event,
    action: burst_client::Action,
)
    requires
        call_ensures(BurstClient::step, (client, event), action),
    ensures
        old(client)@.stage != burst_client::Stage::Ended,
        event is Top <==> old(client)@.stage == burst_client::Stage::Top,
        event is Polled <==> old(client)@.stage == burst_client::Stage::Polling,
        event is Offered <==> old(client)@.stage == burst_client::Stage::Offering,
        event is Exchanged <==> old(client)@.stage == burst_client::Stage::Exchanging,
{
}

/// Any time may be told, and any news of the connection.
pub proof fn lemma_burst_takes_any_news(client: &mut BurstClient, flag: bool, elapsed: u128)
    requires
        old(client).wf(),
    ensures
        old(client)@.stage == burst_client::Stage::Top ==> call_requires(
            BurstClient::step,
            (client, burst_client::Event::Top { closed: flag, elapsed }),
        ),
        old(client)@.stage == burst_client::Stage::Polling ==> call_requires(
            BurstClient::step,
            (client, burst_client::Event::Polled { established: flag }),
        ),
        old(client)@.stage == burst_client::Stage::Exchanging ==> call_requires(
            BurstClient::step,
            (client, burst_client::Event::Exchanged),
        ),
{
}

/// A new client has sent nothing.
pub proof fn lemma_new_burst_client(client: BurstClient)
    requires
        call_ensures(BurstClient::new, (), client),
    ensures
        client.wf(),
        client@.stage == burst_client::Stage::Top,
        !client@.connection_established,
        client@.message_count == 0,
        client@.offset == 0,
{
}

/// A round looks at the connection.
pub proof fn lemma_burst_begins_round(
    client: &mut BurstClient,
    conn: &quiche::Connection,
    elapsed: u128,
    action: burst_client::Action,
)
    requires
        call_ensures(BurstClient::begin_round, (client, conn, elapsed), action),
    ensures
        conn_closed(*conn) <==> action is Finish,
        action is GiveUp <==> (!conn_closed(*conn) && !old(client)@.connection_established
            && elapsed > 5_000_000_000),
        !(action is Finish) && !(action is GiveUp) ==> action is Poll,
{
}

/// After polling the connection tells whether it is established.
pub proof fn lemma_burst_after_poll(
    client: &mut BurstClient,
    conn: &quiche::Connection,
    action: burst_client::Action,
)
    requires
        call_ensures(BurstClient::after_poll, (client, conn), action),
    ensures
        final(client)@.connection_established == (old(client)@.connection_established
            || conn_established(*conn)),
        action is Offer <==> (final(client)@.connection_established && old(client)@.message_count
            < 100),
{
}

/// What is offered is the rest of the message, on stream 2, and does not end the
/// stream.
pub proof fn lemma_burst_offers(
    client: &mut BurstClient,
    conn: &mut quiche::Connection,
    action: burst_client::Action,
    rest: Seq<u8>,
)
    requires
        call_ensures(BurstClient::offer, (client, conn), action),
        0 <= old(client)@.offset <= 307200,
        message_bytes(rest, 307200 - old(client)@.offset),
    ensures
        ({
            let (answer, after) = conn_sent(*old(conn), 2, rest, false);
            &&& *final(conn) == after
            &&& answer matches SendOutcome::Written(n) ==> final(client)@.offset == old(
                client
            )@.offset + n
            &&& !(answer is Written) ==> final(client)@.offset == old(client)@.offset
        }),
{
    assert(crate::block::filling(old(client)@.left()) =~= rest);
}

/// The wait for a packet is the connection's, cut to whole milliseconds, or 50.
pub proof fn lemma_poll_timeout(timeout: Option<u128>, ms: u64)
    requires
        call_ensures(poll_timeout_ms, (timeout,), ms),
    ensures
        timeout is None ==> ms == 50,
        timeout matches Some(ns) ==> ns < 0x1_0000_0000_0000_0000 * 1_000_000 ==> ms * 1_000_000
            <= ns < (ms + 1) * 1_000_000,
{
}

/// Bytes are heard exactly where some were read, as the text that they spell,
/// and as no text where they spell none.
pub proof fn lemma_hear(outcome: ReadOutcome, buf: &[u8], heard: Heard)
    requires
        call_ensures(hear, (outcome, buf), heard),
    ensures
        outcome matches ReadOutcome::Data { read, fin } ==> {
            let bytes = buf@.take(read as int);
            &&& read == 0 ==> heard is Nothing
            &&& read > 0 && valid_utf8(bytes) ==> (heard matches Heard::Text { text, fin: last }
                && text@ == decode_utf8(bytes) && last == fin)
            &&& read > 0 && !valid_utf8(bytes) ==> heard is NoText
        },
        outcome is Blocked ==> heard is Nothing,
        outcome matches ReadOutcome::Failed(error) ==> heard == Heard::Failed(error),
{
}

/// A look reads at most 1024 bytes of stream 0, and tells what they are.
pub proof fn lemma_listen(conn: &mut quiche::Connection, heard: Heard)
    requires
        call_ensures(listen, (conn,), heard),
    ensures
        ({
            let (outcome, bytes, after) = conn_read(*old(conn), 0, 1024);
            &&& *final(conn) == after
            &&& heard is Text ==> outcome is Data && outcome->read > 0 && valid_utf8(bytes)
                && heard->text@ == decode_utf8(bytes) && heard->fin == outcome->fin
            &&& heard is NoText ==> outcome is Data && outcome->read > 0 && !valid_utf8(bytes)
            &&& heard matches Heard::Failed(error) ==> outcome == ReadOutcome::Failed(error)
            &&& heard is Nothing ==> outcome is Blocked || (outcome is Data && outcome->read == 0)
        }),
{
}

/// The answer is one text, on stream 0, and ends the stream.
pub proof fn lemma_answer(conn: &mut quiche::Connection, outcome: SendOutcome)
    requires
        call_ensures(answer, (conn,), outcome),
    ensures
        (outcome, *final(conn)) == conn_sent(
            *old(conn),
            0,
            encode_utf8("hello from client"@),
            true,
        ),
{
}

/// A text on an established connection is answered, and nothing else is.
pub proof fn lemma_converse(conn: &mut quiche::Connection, exchange: Exchange)
    requires
        call_ensures(converse, (conn,), exchange),
    ensures
        ({
            let (outcome, bytes, next) = conn_read(*old(conn), 0, 1024);
            let text_came = outcome is Data && outcome->read > 0 && valid_utf8(bytes);
            &&& exchange is NotYet <==> !conn_established(*old(conn))
            &&& exchange is NotYet ==> *final(conn) == *old(conn)
            &&& exchange is Answered <==> conn_established(*old(conn)) && text_came
            &&& exchange is Unanswered ==> *final(conn) == next
            &&& exchange matches Exchange::Answered { text, fin, outcome: sent } ==> {
                &&& text@ == decode_utf8(bytes)
                &&& fin == outcome->fin
                &&& (sent, *final(conn)) == conn_sent(
                    next,
                    0,
                    encode_utf8("hello from client"@),
                    true,
                )
            }
        }),
{
}

/// A ping that was taken counts; the tenth is the last; one that was not taken
/// is a failure.
pub proof fn lemma_ping_counts(pinger: &mut Pinger, outcome: SendOutcome, step: PingStep)
    requires
        call_ensures(Pinger::count, (pinger, outcome), step),
    ensures
        outcome is Written ==> final(pinger).spec_sent() == old(pinger).spec_sent() + 1,
        outcome is Written && old(pinger).spec_sent() == 9 ==> step is Done,
        outcome is Written && old(pinger).spec_sent() != 9 ==> step is Next,
        !(outcome is Written) ==> step == PingStep::Failed(outcome) && final(pinger).spec_sent()
            == old(pinger).spec_sent(),
{
}

/// A ping is one line, on stream 0, and does not end the stream.
pub proof fn lemma_ping(pinger: &mut Pinger, conn: &mut quiche::Connection, step: PingStep)
    requires
        call_ensures(Pinger::ping, (pinger, conn), step),
    ensures
        ({
            let (answer, after) = conn_sent(*old(conn), 0, encode_utf8("ping\n"@), false);
            &&& *final(conn) == after
            &&& answer is Written ==> final(pinger).spec_sent() == old(pinger).spec_sent() + 1
            &&& answer is Written ==> (step is Done <==> old(pinger).spec_sent() == 9)
            &&& !(answer is Written) ==> step == PingStep::Failed(answer)
        }),
{
}

/// A new client has sent no ping, and may send one as long as there were fewer
/// than ten.
pub proof fn lemma_new_pinger(pinger: Pinger, counting: &mut Pinger, outcome: SendOutcome)
    requires
        call_ensures(Pinger::new, (), pinger),
    ensures
        pinger.spec_sent() == 0,
        old(counting).spec_sent() < 10 ==> call_requires(Pinger::count, (counting, outcome)),
{
}

/// The sleep is the connection's, or 50 ms.
pub proof fn lemma_wait(timeout: Option<u128>, ns: u128)
    requires
        call_ensures(wait_ns, (timeout,), ns),
    ensures
        timeout matches Some(t) ==> ns == t,
        timeout is None ==> ns == 50_000_000,
{
}

/// Times that a program waits for between its steps.
pub proof fn lemma_intervals()
    ensures
        quic_client::RETRY_INTERVAL_NS == 100_000_000,
        ping_client::PING_INTERVAL_NS == 100_000_000,
        crate::publisher::POLL_WAIT_NS == 1_000_000,
        crate::publisher::POLL_INTERVAL_NS == 1_000_000,
        crate::publisher::REST_NS == 5_000_000,
        crate::publisher::FIRST_DEADLINE_NS == 1_000_000_000_000,
        echo_client::MAX_DATAGRAM_SIZE == 1350,
{
}

} // verus!
