use quiche_bench::burst_client;
use quiche_bench::burst_client::BurstClient;
use quiche_bench::echo_client::{hear, poll_timeout_ms, Heard};
use quiche_bench::ping_client::{wait_ns, PingStep, Pinger};
use quiche_bench::quic_client::{Action, Event, QuicClient, MAX_MESSAGES, MESSAGE_SIZE};
use quiche_bench::transport::{ReadOutcome, SendOutcome};

fn polled(client: &mut QuicClient, established: bool) -> Action {
    let action = client.step(Event::Top { closed: false, elapsed: 0 });
    assert!(matches!(action, Action::Poll));
    client.step(Event::Polled { established })
}

#[test]
fn client_times_out_without_a_connection() {
    let mut client = QuicClient::new();
    let action = client.step(Event::Top { closed: false, elapsed: 20_000_000_000 });
    assert!(matches!(action, Action::Poll));
    let action = client.step(Event::Polled { established: false });
    assert!(matches!(action, Action::Restart { sent: false }));
    let action = client.step(Event::Top { closed: false, elapsed: 20_000_000_001 });
    assert!(matches!(action, Action::TimedOut));
}

#[test]
fn client_stops_when_the_connection_is_closed() {
    let mut client = QuicClient::new();
    let action = client.step(Event::Top { closed: true, elapsed: 0 });
    assert!(matches!(action, Action::Finish));
}

#[test]
fn stream_is_opened_once() {
    let mut client = QuicClient::new();
    client.step(Event::Top { closed: false, elapsed: 0 });
    assert!(!client.open_stream_once(false));
    assert!(client.open_stream_once(true));
    assert!(!client.open_stream_once(true));
}

#[test]
fn all_messages_are_sent_and_then_the_stream_is_finished() {
    let mut client = QuicClient::new();
    let mut total = 0;
    for message in 1..MAX_MESSAGES + 1 {
        let action = polled(&mut client, true);
        assert!(matches!(action, Action::Offer { stream_id: 5, offset: 0 }));
        assert_eq!(client.message_count(), message);
        let action = client.step(Event::Offered(SendOutcome::Written(1000)));
        assert!(matches!(action, Action::Flush));
        let action = client.step(Event::Flushed);
        assert!(matches!(action, Action::Offer { stream_id: 5, offset: 1000 }));
        client.step(Event::Offered(SendOutcome::Written(MESSAGE_SIZE - 1000)));
        let action = client.step(Event::Flushed);
        assert!(matches!(action, Action::Restart { sent: true }));
        total += MESSAGE_SIZE;
    }
    assert_eq!(total, 3_072_000);
    let action = polled(&mut client, true);
    assert!(matches!(action, Action::FinishStream { stream_id: 5 }));
    let action = client.step(Event::Finished(SendOutcome::Written(0)));
    assert!(matches!(action, Action::CloseConnection));
    let action = polled(&mut client, true);
    assert!(matches!(action, Action::Restart { sent: false }));
    assert_eq!(client.message_count(), 10);
}

#[test]
fn room_is_waited_for() {
    let mut client = QuicClient::new();
    polled(&mut client, true);
    let action = client.step(Event::Offered(SendOutcome::Blocked));
    assert!(matches!(action, Action::Await));
    let action = client.step(Event::Waited { waited: 0 });
    assert!(matches!(action, Action::Retry { stream_id: 5, offset: 0 }));
    let action = client.step(Event::Retried(SendOutcome::Blocked));
    assert!(matches!(action, Action::Sleep));
    let action = client.step(Event::Waited { waited: 4_999_999_999 });
    assert!(matches!(action, Action::Retry { stream_id: 5, offset: 0 }));
    let action = client.step(Event::Retried(SendOutcome::Written(10)));
    assert!(matches!(action, Action::Offer { stream_id: 5, offset: 10 }));
    client.step(Event::Offered(SendOutcome::Blocked));
    let action = client.step(Event::Waited { waited: 5_000_000_000 });
    assert!(matches!(action, Action::Offer { stream_id: 5, offset: 10 }));
    client.step(Event::Offered(SendOutcome::Blocked));
    client.step(Event::Waited { waited: 1 });
    let action = client.step(Event::Retried(SendOutcome::Written(MESSAGE_SIZE - 10)));
    assert!(matches!(action, Action::Restart { sent: true }));
}

#[test]
fn failures_differ_by_where_they_happen() {
    let error = quiche::Error::InvalidStreamState(5);
    let mut client = QuicClient::new();
    polled(&mut client, true);
    let action = client.step(Event::Offered(SendOutcome::Failed(error)));
    assert!(matches!(action, Action::Backoff { error: _, stream_id: 5, offset: 0 }));
    client.step(Event::Offered(SendOutcome::Blocked));
    client.step(Event::Waited { waited: 0 });
    let action = client.step(Event::Retried(SendOutcome::Failed(error)));
    assert!(matches!(action, Action::Fail(quiche::Error::InvalidStreamState(5))));
}

#[test]
fn stream_that_cannot_be_finished_is_a_failure() {
    let mut client = QuicClient::new();
    for _ in 0..MAX_MESSAGES {
        polled(&mut client, true);
        client.step(Event::Offered(SendOutcome::Written(MESSAGE_SIZE)));
        client.step(Event::Flushed);
    }
    polled(&mut client, true);
    let action = client.step(Event::Finished(SendOutcome::Blocked));
    assert!(matches!(action, Action::FailToFinish(SendOutcome::Blocked)));
}

#[test]
fn settings_of_the_message_client() {
    let settings = QuicClient::settings();
    assert_eq!(settings.max_idle_timeout, 60000);
    assert_eq!(settings.max_recv_udp_payload_size, 1350);
    assert_eq!(settings.max_send_udp_payload_size, 1350);
    assert_eq!(settings.initial_max_streams_bidi, 100);
    assert_eq!(settings.initial_max_streams_uni, 100);
    assert!(settings.datagrams.is_none());
}

#[test]
fn burst_of_messages() {
    let mut client = BurstClient::new();
    for _ in 0..100 {
        client.step(burst_client::Event::Top { closed: false, elapsed: 0 });
        let action = client.step(burst_client::Event::Polled { established: true });
        assert!(matches!(action, burst_client::Action::Offer { offset: 0 }));
        let blocked = burst_client::Event::Offered(SendOutcome::Blocked);
        assert!(matches!(client.step(blocked), burst_client::Action::Exchange));
        let action = client.step(burst_client::Event::Exchanged);
        assert!(matches!(action, burst_client::Action::Offer { offset: 0 }));
        let some = burst_client::Event::Offered(SendOutcome::Written(307_199));
        assert!(matches!(client.step(some), burst_client::Action::SendPacket));
        let action = client.step(burst_client::Event::Exchanged);
        assert!(matches!(action, burst_client::Action::Offer { offset: 307_199 }));
        let rest = burst_client::Event::Offered(SendOutcome::Written(1));
        client.step(rest);
        let action = client.step(burst_client::Event::Exchanged);
        assert!(matches!(action, burst_client::Action::Restart { sent: true }));
    }
    client.step(burst_client::Event::Top { closed: false, elapsed: u128::MAX });
    let action = client.step(burst_client::Event::Polled { established: true });
    assert!(matches!(action, burst_client::Action::Restart { sent: false }));
}

#[test]
fn burst_goes_on_after_a_failure() {
    let mut client = BurstClient::new();
    client.step(burst_client::Event::Top { closed: false, elapsed: 0 });
    client.step(burst_client::Event::Polled { established: true });
    let failed = burst_client::Event::Offered(SendOutcome::Failed(quiche::Error::FlowControl));
    let action = client.step(failed);
    assert!(matches!(
        action,
        burst_client::Action::OfferAgain { error: quiche::Error::FlowControl, offset: 0 }
    ));
}

#[test]
fn burst_needs_a_connection_in_time() {
    let mut client = BurstClient::new();
    let action = client.step(burst_client::Event::Top { closed: false, elapsed: 5_000_000_001 });
    assert!(matches!(action, burst_client::Action::GiveUp));
    let mut client = BurstClient::new();
    let action = client.step(burst_client::Event::Top { closed: true, elapsed: 5_000_000_001 });
    assert!(matches!(action, burst_client::Action::Finish));
}

#[test]
fn wait_is_cut_to_milliseconds() {
    assert_eq!(poll_timeout_ms(None), 50);
    assert_eq!(poll_timeout_ms(Some(0)), 0);
    assert_eq!(poll_timeout_ms(Some(1_999_999)), 1);
    assert_eq!(poll_timeout_ms(Some(5_000_000_000)), 5000);
    assert_eq!(poll_timeout_ms(Some((1u128 << 64) * 1_000_000 + 3_000_000)), 3);
}

#[test]
fn text_is_heard() {
    let mut buf = vec![0; 1024];
    buf[..7].copy_from_slice("grüße".as_bytes());
    match hear(ReadOutcome::Data { read: 7, fin: true }, &buf) {
        Heard::Text { text, fin } => {
            assert_eq!(text, "grüße");
            assert!(fin);
        }
        _ => panic!("a text was read"),
    }
    assert!(matches!(hear(ReadOutcome::Data { read: 3, fin: false }, &buf), Heard::NoText));
    assert!(matches!(hear(ReadOutcome::Data { read: 0, fin: true }, &buf), Heard::Nothing));
    assert!(matches!(hear(ReadOutcome::Blocked, &buf), Heard::Nothing));
    assert!(matches!(
        hear(ReadOutcome::Failed(quiche::Error::InvalidState), &buf),
        Heard::Failed(quiche::Error::InvalidState)
    ));
}

#[test]
fn ten_pings_are_sent() {
    let mut pinger = Pinger::new();
    for _ in 0..9 {
        assert!(matches!(pinger.count(SendOutcome::Written(5)), PingStep::Next));
    }
    assert!(matches!(
        pinger.count(SendOutcome::Blocked),
        PingStep::Failed(SendOutcome::Blocked)
    ));
    assert!(matches!(pinger.count(SendOutcome::Written(5)), PingStep::Done));
}

#[test]
fn pinger_sleeps_as_long_as_the_connection_lets_it() {
    assert_eq!(wait_ns(None), 50_000_000);
    assert_eq!(wait_ns(Some(17)), 17);
}
