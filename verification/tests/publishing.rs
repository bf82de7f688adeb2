use quiche_bench::block::BlockFormat;
use quiche_bench::publisher::{
    Action, Event, Publisher, Refusal, ESTABLISH_CONNECTION_TIMEOUT_NS, FIRST_DEADLINE_NS, LEAST_GAP_MS,
    PERIOD_NS, POLL_INTERVAL_NS, POLL_WAIT_NS, REST_NS,
};
use quiche_bench::subscriber::{Inbound, Subscriber};
use quiche_bench::transport::{ReadOutcome, SendOutcome};

fn format() -> BlockFormat {
    BlockFormat::new(77, 100).unwrap()
}

fn started(now_ms: u64) -> Publisher {
    let mut publisher = Publisher::new(format());
    let top = publisher.step(Event::Top { closed: false, elapsed: 0 });
    assert!(matches!(top, Action::Poll));
    let action = publisher.step(Event::Polled { established: true, now_ms });
    assert!(matches!(action, Action::Offer { stream_id: 2, offset: 0 }));
    publisher
}

#[test]
fn times_are_those_of_the_bench() {
    assert_eq!(ESTABLISH_CONNECTION_TIMEOUT_NS, 5_000_000_000);
    assert_eq!(POLL_INTERVAL_NS, 1_000_000);
    assert_eq!(POLL_WAIT_NS, 1_000_000);
    assert_eq!(PERIOD_NS, 330_000_000);
    assert_eq!(REST_NS, 5_000_000);
    assert_eq!(FIRST_DEADLINE_NS, 1_000_000_000_000);
}

#[test]
fn publisher_stops_when_the_connection_is_closed() {
    let mut publisher = Publisher::new(format());
    let action = publisher.step(Event::Top { closed: true, elapsed: u128::MAX });
    assert!(matches!(action, Action::Finish));
}

#[test]
fn publisher_gives_up_after_five_seconds_and_no_sooner() {
    let mut publisher = Publisher::new(format());
    let action = publisher.step(Event::Top { closed: false, elapsed: 5_000_000_000 });
    assert!(matches!(action, Action::Poll));
    let action = publisher.step(Event::Polled { established: false, now_ms: 1 });
    assert!(matches!(action, Action::Restart));
    let action = publisher.step(Event::Top { closed: false, elapsed: 5_000_000_001 });
    assert!(matches!(action, Action::GiveUp));
}

#[test]
fn publisher_with_a_stream_does_not_give_up() {
    let mut publisher = started(5);
    publisher.step(Event::Offered(SendOutcome::Written(100)));
    publisher.step(Event::Flushed);
    publisher.step(Event::Measured { elapsed: PERIOD_NS });
    publisher.step(Event::Capacity(None));
    let action = publisher.step(Event::Top { closed: false, elapsed: u128::MAX });
    assert!(matches!(action, Action::Poll));
}

#[test]
fn block_is_offered_until_it_is_taken_whole() {
    let mut publisher = started(5);
    let action = publisher.step(Event::Offered(SendOutcome::Written(60)));
    assert!(matches!(action, Action::Flush));
    let action = publisher.step(Event::Flushed);
    assert!(matches!(action, Action::Offer { stream_id: 2, offset: 60 }));
    let action = publisher.step(Event::Offered(SendOutcome::Blocked));
    assert!(matches!(action, Action::AwaitRoom));
    let action = publisher.step(Event::Flushed);
    assert!(matches!(action, Action::Offer { stream_id: 2, offset: 60 }));
    let action = publisher.step(Event::Offered(SendOutcome::Written(40)));
    assert!(matches!(action, Action::Flush));
    let action = publisher.step(Event::Flushed);
    assert!(matches!(action, Action::Measure));
}

#[test]
fn failing_stream_aborts() {
    let mut publisher = started(5);
    let action = publisher.step(Event::Offered(SendOutcome::Failed(quiche::Error::StreamLimit)));
    assert!(matches!(action, Action::Abort(quiche::Error::StreamLimit)));
}

#[test]
fn period_is_waited_out() {
    let mut publisher = started(5);
    publisher.step(Event::Offered(SendOutcome::Written(100)));
    publisher.step(Event::Flushed);
    let action = publisher.step(Event::Measured { elapsed: 329_999_999 });
    assert!(matches!(action, Action::Pace));
    let action = publisher.step(Event::Paced { elapsed: 328_999_999 });
    assert!(matches!(action, Action::SleepAndPace));
    let action = publisher.step(Event::Paced { elapsed: 329_000_000 });
    assert!(matches!(action, Action::CheckCapacity { overrun: false }));
    let action = publisher.step(Event::Capacity(Some(999)));
    assert!(matches!(action, Action::Rest));
}

#[test]
fn overrun_is_told() {
    let mut publisher = started(5);
    publisher.step(Event::Offered(SendOutcome::Written(100)));
    publisher.step(Event::Flushed);
    let action = publisher.step(Event::Measured { elapsed: 330_000_000 });
    assert!(matches!(action, Action::CheckCapacity { overrun: true }));
    let action = publisher.step(Event::Capacity(Some(1000)));
    assert!(matches!(action, Action::Restart));
}

#[test]
fn subscriber_gets_what_the_publisher_sent() {
    let mut publisher = Publisher::new(format());
    let mut subscriber = Subscriber::new(format());
    let mut received: Vec<u64> = Vec::new();
    let mut elapsed: u128 = 0;
    for now_ms in [1000, 1330, 1660] {
        publisher.step(Event::Top { closed: false, elapsed });
        let mut action = publisher.step(Event::Polled { established: true, now_ms });
        let mut chunk = 30;
        while let Action::Offer { offset, .. } = action {
            let rest = publisher.message()[offset..].to_vec();
            let written = rest.len().min(chunk);
            chunk += 7;
            let mut buf = vec![0; subscriber.read_size()];
            buf[..written].copy_from_slice(&rest[..written]);
            let outcome = ReadOutcome::Data { read: written, fin: false };
            if let Inbound::Blocks(blocks) = subscriber.take(outcome, &buf) {
                for block in blocks {
                    assert_eq!(format().fault(&block, now_ms + 4), None);
                    received.push(format().latency(&block, now_ms + 4));
                }
            }
            publisher.step(Event::Offered(SendOutcome::Written(written)));
            action = publisher.step(Event::Flushed);
        }
        publisher.step(Event::Measured { elapsed: PERIOD_NS });
        publisher.step(Event::Capacity(Some(100_000)));
        elapsed += PERIOD_NS;
    }
    assert_eq!(received, vec![4, 4, 4]);
}

#[test]
fn stamps_of_two_blocks_are_apart() {
    let mut clock: u128 = 7_900_000;
    let mut publisher = started((clock / 1_000_000) as u64);
    let moment = clock;
    publisher.step(Event::Offered(SendOutcome::Written(100)));
    publisher.step(Event::Flushed);
    let mut action = publisher.step(Event::Measured { elapsed: clock - moment });
    while !matches!(action, Action::CheckCapacity { .. }) {
        clock += 1_000_000;
        action = publisher.step(Event::Paced { elapsed: clock - moment });
    }
    publisher.step(Event::Capacity(None));
    publisher.step(Event::Top { closed: false, elapsed: clock });
    publisher.step(Event::Polled { established: true, now_ms: (clock / 1_000_000) as u64 });
    assert_eq!(publisher.message()[8..16], (7 + LEAST_GAP_MS).to_be_bytes());
}

#[test]
fn refused_packets_are_only_reported_while_pacing() {
    let error = quiche::Error::InvalidPacket;
    let mut publisher = Publisher::new(format());
    publisher.step(Event::Top { closed: false, elapsed: 0 });
    assert!(matches!(publisher.refused(error), Refusal::End(quiche::Error::InvalidPacket)));
    let mut publisher = started(5);
    publisher.step(Event::Offered(SendOutcome::Blocked));
    assert!(matches!(publisher.refused(error), Refusal::End(quiche::Error::InvalidPacket)));
    publisher.step(Event::Flushed);
    publisher.step(Event::Offered(SendOutcome::Written(100)));
    publisher.step(Event::Flushed);
    publisher.step(Event::Measured { elapsed: 0 });
    assert!(matches!(publisher.refused(error), Refusal::Report(quiche::Error::InvalidPacket)));
}
