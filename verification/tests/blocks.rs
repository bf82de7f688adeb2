use quiche_bench::aggregator::BlockAggregator;
use quiche_bench::block::{BlockFault, BlockFormat};

const MAGIC: u64 = 0x0102_0304_0506_0708;

fn format(size: usize) -> BlockFormat {
    BlockFormat::new(MAGIC, size).unwrap()
}

fn stamped(format: &BlockFormat, sent_ms: u64) -> Vec<u8> {
    let mut block = format.blank();
    format.stamp(&mut block, sent_ms);
    block
}

#[test]
fn format_needs_room_for_the_header() {
    assert!(BlockFormat::new(MAGIC, 0).is_none());
    assert!(BlockFormat::new(MAGIC, 15).is_none());
    assert!(BlockFormat::new(MAGIC, 16).is_some());
    assert!(BlockFormat::new(MAGIC, usize::MAX / 6).is_some());
    assert!(BlockFormat::new(MAGIC, usize::MAX / 6 + 1).is_none());
    assert_eq!(format(100).magic(), MAGIC);
    assert_eq!(format(100).block_size(), 100);
}

#[test]
fn stamp_is_in_network_byte_order() {
    let format = format(20);
    assert_eq!(format.blank(), vec![42u8; 20]);
    let block = stamped(&format, 0xa0b0_c0d0_e0f0_0001);
    assert_eq!(block[..8], [1, 2, 3, 4, 5, 6, 7, 8]);
    assert_eq!(block[8..16], [0xa0, 0xb0, 0xc0, 0xd0, 0xe0, 0xf0, 0x00, 0x01]);
    assert_eq!(block[16..], [42, 42, 42, 42]);
}

#[test]
fn stamping_again_replaces_the_header_alone() {
    let format = format(24);
    let mut block = stamped(&format, u64::MAX);
    format.stamp(&mut block, 7);
    assert_eq!(block, stamped(&format, 7));
}

#[test]
fn latency_is_the_time_between_stamp_and_receipt() {
    let format = format(32);
    let block = stamped(&format, 1_700_000_000_000);
    assert_eq!(format.fault(&block, 1_700_000_000_123), None);
    assert_eq!(format.latency(&block, 1_700_000_000_123), 123);
    assert_eq!(format.latency(&block, 1_700_000_000_000), 0);
    let late = stamped(&format, 0);
    assert_eq!(format.latency(&late, u64::MAX), u64::MAX);
}

#[test]
fn faults_are_told_apart() {
    let format = format(16);
    let mut block = stamped(&format, 10);
    assert_eq!(format.fault(&block, 9), Some(BlockFault::SentLater { sent_ms: 10 }));
    block[7] = 9;
    assert_eq!(
        format.fault(&block, 9),
        Some(BlockFault::WrongMagic { found: 0x0102_0304_0506_0709 })
    );
    assert_eq!(format.fault(&[0; 16], 0), Some(BlockFault::WrongMagic { found: 0 }));
}

#[test]
fn blocks_come_out_whole_and_in_order() {
    let format = format(16);
    let mut aggregator = BlockAggregator::new(format);
    assert_eq!(aggregator.read_size(), 32);
    let mut stream: Vec<u8> = Vec::new();
    for sent_ms in 0..5 {
        stream.extend_from_slice(&stamped(&format, sent_ms));
    }
    assert!(aggregator.ingest(&[]).is_empty());
    assert!(aggregator.ingest(&stream[..15]).is_empty());
    assert_eq!(aggregator.ingest(&stream[15..16]), vec![stamped(&format, 0)]);
    assert_eq!(
        aggregator.ingest(&stream[16..70]),
        vec![stamped(&format, 1), stamped(&format, 2), stamped(&format, 3)]
    );
    assert_eq!(aggregator.ingest(&stream[70..]), vec![stamped(&format, 4)]);
    assert!(aggregator.ingest(&[]).is_empty());
}

#[test]
fn any_cut_gives_the_same_blocks() {
    let format = format(17);
    let mut stream: Vec<u8> = Vec::new();
    let mut sent: Vec<Vec<u8>> = Vec::new();
    for sent_ms in 100..110 {
        let block = stamped(&format, sent_ms);
        stream.extend_from_slice(&block);
        sent.push(block);
    }
    for step in 1..stream.len() + 1 {
        let mut aggregator = BlockAggregator::new(format);
        let mut received: Vec<Vec<u8>> = Vec::new();
        for piece in stream.chunks(step) {
            received.extend(aggregator.ingest(piece));
        }
        assert_eq!(received, sent);
    }
}

#[test]
fn blocks_are_measured() {
    let format = format(20);
    let block = stamped(&format, 1000);
    assert_eq!(format.measure(&block, 1250), Ok(250));
    assert_eq!(format.measure(&block, 999), Err(BlockFault::SentLater { sent_ms: 1000 }));
    let mut other = block.clone();
    other[..8].copy_from_slice(&5u64.to_be_bytes());
    assert_eq!(format.measure(&other, 1250), Err(BlockFault::WrongMagic { found: 5 }));
}
