//! The blocks that a publisher sends and a subscriber measures.
//!
//! A block has a fixed size. It starts with a magic number and with the time
//! at which it was sent, in milliseconds, both as eight bytes in network byte
//! order. The rest is filling.

use vstd::prelude::*;

verus! {

/// Bytes of a block in front of its filling.
pub const HEADER_LEN: usize = 16;

/// The byte that blocks are filled with.
pub const FILLING: u8 = 42;

/// The number that `bytes` spell in network byte order.
pub open spec fn be_value(bytes: Seq<u8>) -> nat
    decreases bytes.len(),
{
    if bytes.len() == 0 {
        0
    } else {
        be_value(bytes.drop_last()) * 256 + bytes.last() as nat
    }
}

/// The low `width` bytes of `v` in network byte order.
pub open spec fn be_bytes(v: nat, width: nat) -> Seq<u8>
    decreases width,
{
    if width == 0 {
        Seq::empty()
    } else {
        be_bytes(v / 256, (width - 1) as nat).push((v % 256) as u8)
    }
}

proof fn lemma_be_bytes_len(v: nat, width: nat)
    ensures
        be_bytes(v, width).len() == width,
    decreases width,
{
    if width > 0 {
        lemma_be_bytes_len(v / 256, (width - 1) as nat);
    }
}

/// How many numbers `width` bytes can spell.
spec fn be_range(width: nat) -> nat
    decreases width,
{
    if width == 0 {
        1
    } else {
        256 * be_range((width - 1) as nat)
    }
}

proof fn lemma_be_value_of_bytes(v: nat, width: nat)
    requires
        v < be_range(width),
    ensures
        be_value(be_bytes(v, width)) == v,
    decreases width,
{
    if width > 0 {
        let shorter = (width - 1) as nat;
        lemma_be_value_of_bytes(v / 256, shorter);
        assert(be_bytes(v, width).drop_last() =~= be_bytes(v / 256, shorter));
    }
}

/// Eight bytes spell every `u64`, and reading them gives the number back.
pub proof fn lemma_be_round_trip(v: u64)
    ensures
        be_bytes(v as nat, 8).len() == 8,
        be_value(be_bytes(v as nat, 8)) == v,
{
    lemma_be_bytes_len(v as nat, 8);
    assert(be_range(8) == 0x1_0000_0000_0000_0000) by {
        reveal_with_fuel(be_range, 9);
    }
    lemma_be_value_of_bytes(v as nat, 8);
}

/// The bytes at `at` and after them, up to `width` bytes.
spec fn field(bytes: Seq<u8>, at: int, width: int) -> Seq<u8> {
    bytes.subrange(at, at + width)
}

/// Writes `v` at `at`, in network byte order.
fn put_u64(buf: &mut Vec<u8>, at: usize, v: u64)
    requires
        at + 8 <= old(buf).len(),
    ensures
        final(buf)@ == old(buf)@.take(at as int) + be_bytes(v as nat, 8) + old(buf)@.skip(at + 8),
{
    let mut rest: u64 = v;
    let mut i: usize = 8;
    while i > 0
        invariant
            i <= 8,
            at + 8 <= old(buf).len(),
            buf.len() == old(buf).len(),
            be_bytes(v as nat, 8) == be_bytes(rest as nat, i as nat) + field(
                buf@,
                at + i,
                8 - i,
            ),
            forall|k: int|
                0 <= k < buf.len() && !(at <= k < at + 8) ==> buf@[k] == old(buf)@[k],
        decreases i,
    {
        let ghost before = buf@;
        buf[at + i - 1] = (rest % 256) as u8;
        proof {
            lemma_be_bytes_len(rest as nat, i as nat);
            assert(be_bytes(rest as nat, i as nat) == be_bytes(
                (rest / 256) as nat,
                (i - 1) as nat,
            ).push((rest % 256) as u8));
            assert(be_bytes(rest as nat, i as nat) + field(before, at + i, 8 - i) =~= be_bytes(
                (rest / 256) as nat,
                (i - 1) as nat,
            ) + field(buf@, at + i - 1, 8 - (i - 1)));
        }
        rest = rest / 256;
        i = i - 1;
    }
    proof {
        lemma_be_bytes_len(v as nat, 8);
        assert(be_bytes(v as nat, 8) =~= field(buf@, at as int, 8));
        assert(buf@ =~= old(buf)@.take(at as int) + be_bytes(v as nat, 8) + old(buf)@.skip(at + 8));
    }
}

/// Reads the number at `at`, in network byte order.
fn get_u64(buf: &[u8], at: usize) -> (v: u64)
    requires
        at + 8 <= buf@.len(),
    ensures
        v == be_value(buf@.subrange(at as int, at + 8)),
{
    let v: u64 = buf[at] as u64 * 0x100_0000_0000_0000 + buf[at + 1] as u64 * 0x1_0000_0000_0000
        + buf[at + 2] as u64 * 0x100_0000_0000 + buf[at + 3] as u64 * 0x1_0000_0000 + buf[at
        + 4] as u64 * 0x100_0000 + buf[at + 5] as u64 * 0x1_0000 + buf[at + 6] as u64 * 0x100
        + buf[at + 7] as u64;
    proof {
        let s = buf@.subrange(at as int, at + 8);
        assert forall|k: int| 0 < k <= 8 implies #[trigger] s.take(k).drop_last() == s.take(
            k - 1,
        ) by {
            assert(s.take(k).drop_last() =~= s.take(k - 1));
        }
        assert(s.take(8) =~= s);
        assert(be_value(s.take(0)) == 0);
        assert(be_value(s.take(1)) == s[0] as nat);
        assert(be_value(s.take(2)) == be_value(s.take(1)) * 256 + s[1] as nat);
        assert(be_value(s.take(3)) == be_value(s.take(2)) * 256 + s[2] as nat);
        assert(be_value(s.take(4)) == be_value(s.take(3)) * 256 + s[3] as nat);
        assert(be_value(s.take(5)) == be_value(s.take(4)) * 256 + s[4] as nat);
        assert(be_value(s.take(6)) == be_value(s.take(5)) * 256 + s[5] as nat);
        assert(be_value(s.take(7)) == be_value(s.take(6)) * 256 + s[6] as nat);
        assert(be_value(s.take(8)) == be_value(s.take(7)) * 256 + s[7] as nat);
    }
    v
}

/// The shape of the blocks of one bench: the magic number that they start with
/// and their size. A block has room for its header, and three blocks, which a
/// subscriber may have to hold at once, fit into one vector.
#[derive(Clone, Copy, Debug)]
pub struct BlockFormat {
    magic: u64,
    block_size: usize,
}

/// What is wrong with a received block.
#[derive(Clone, Copy, Debug, PartialEq, Eq, Structural)]
pub enum BlockFault {
    /// The block does not start with the magic number: protocol mismatch, or
    /// the stream was restarted.
    WrongMagic { found: u64 },
    /// The block claims to have been sent after it was received.
    SentLater { sent_ms: u64 },
}

/// The magic number of a block.
pub open spec fn magic_of(block: Seq<u8>) -> nat {
    be_value(block.subrange(0, 8))
}

/// The time at which a block was sent.
pub open spec fn sent_ms_of(block: Seq<u8>) -> nat {
    be_value(block.subrange(8, 16))
}

/// A block of `size` bytes: the given header fields, then filling.
pub open spec fn block_bytes(magic: u64, sent_ms: u64, size: nat) -> Seq<u8> {
    be_bytes(magic as nat, 8) + be_bytes(sent_ms as nat, 8) + filling((size - HEADER_LEN) as nat)
}

/// `len` filling bytes.
pub open spec fn filling(len: nat) -> Seq<u8> {
    Seq::new(len, |i: int| FILLING)
}

impl BlockFormat {
    #[verifier::type_invariant]
    spec fn wf(self) -> bool {
        HEADER_LEN <= self.block_size <= usize::MAX / 6
    }

    pub closed spec fn spec_magic(self) -> u64 {
        self.magic
    }

    pub closed spec fn spec_block_size(self) -> nat {
        self.block_size as nat
    }

    /// The block that is sent at `sent_ms`.
    pub open spec fn block(self, sent_ms: u64) -> Seq<u8> {
        block_bytes(self.spec_magic(), sent_ms, self.spec_block_size())
    }

    /// What is wrong with a block that is received at `now_ms`. The magic
    /// number is looked at first.
    pub open spec fn fault_of(self, block: Seq<u8>, now_ms: u64) -> Option<BlockFault> {
        if magic_of(block) != self.spec_magic() {
            Some(BlockFault::WrongMagic { found: magic_of(block) as u64 })
        } else if now_ms < sent_ms_of(block) {
            Some(BlockFault::SentLater { sent_ms: sent_ms_of(block) as u64 })
        } else {
            None
        }
    }

    /// A format, unless blocks of that size have no room for their header, or
    /// three of them no room in a vector.
    pub fn new(magic: u64, block_size: usize) -> (result: Option<BlockFormat>)
        ensures
            result is Some <==> HEADER_LEN <= block_size <= usize::MAX / 6,
            result matches Some(format) ==> format.spec_magic() == magic
                && format.spec_block_size() == block_size,
    {
        if HEADER_LEN <= block_size && block_size <= usize::MAX / 6 {
            Some(BlockFormat { magic, block_size })
        } else {
            None
        }
    }

    pub fn magic(&self) -> (magic: u64)
        ensures
            magic == self.spec_magic(),
    {
        self.magic
    }

    pub fn block_size(&self) -> (size: usize)
        ensures
            size == self.spec_block_size(),
            HEADER_LEN <= size <= usize::MAX / 6,
    {
        proof {
            use_type_invariant(self);
        }
        self.block_size
    }

    /// A block with nothing but filling in it.
    pub fn blank(&self) -> (block: Vec<u8>)
        ensures
            block@ == filling(self.spec_block_size()),
    {
        let block = vec![FILLING; self.block_size];
        assert(block@ =~= filling(self.spec_block_size()));
        block
    }

    /// Puts a header in front of the filling of `block`, or in place of the
    /// header that it has.
    pub fn stamp(&self, block: &mut Vec<u8>, sent_ms: u64)
        requires
            old(block).len() == self.spec_block_size(),
        ensures
            final(block)@ == be_bytes(self.spec_magic() as nat, 8) + be_bytes(sent_ms as nat, 8)
                + old(block)@.skip(HEADER_LEN as int),
    {
        proof {
            use_type_invariant(self);
            lemma_be_bytes_len(self.magic as nat, 8);
            lemma_be_bytes_len(sent_ms as nat, 8);
        }
        put_u64(block, 0, self.magic);
        put_u64(block, 8, sent_ms);
        assert(block@ =~= be_bytes(self.spec_magic() as nat, 8) + be_bytes(sent_ms as nat, 8) + old(
            block,
        )@.skip(HEADER_LEN as int));
    }

    /// Checks a block that is received at `now_ms`.
    pub fn fault(&self, block: &[u8], now_ms: u64) -> (fault: Option<BlockFault>)
        requires
            block@.len() >= HEADER_LEN,
        ensures
            fault == self.fault_of(block@, now_ms),
    {
        let found: u64 = get_u64(block, 0);
        let sent_ms: u64 = get_u64(block, 8);
        if found != self.magic {
            Some(BlockFault::WrongMagic { found })
        } else if now_ms < sent_ms {
            Some(BlockFault::SentLater { sent_ms })
        } else {
            None
        }
    }

    /// How many milliseconds a faultless block took, when it is received at
    /// `now_ms`.
    pub fn latency(&self, block: &[u8], now_ms: u64) -> (latency: u64)
        requires
            block@.len() >= HEADER_LEN,
            self.fault_of(block@, now_ms) is None,
        ensures
            latency == now_ms - sent_ms_of(block@),
    {
        now_ms - get_u64(block, 8)
    }
}

impl BlockFormat {
    /// How many milliseconds a block took that is received at `now_ms`, or what
    /// is wrong with it.
    pub fn measure(&self, block: &[u8], now_ms: u64) -> (result: Result<u64, BlockFault>)
        requires
            block@.len() >= HEADER_LEN,
        ensures
            result == (match self.fault_of(block@, now_ms) {
                Some(fault) => Err(fault),
                None => Ok((now_ms - sent_ms_of(block@)) as u64),
            }),
    {
        match self.fault(block, now_ms) {
            Some(fault) => Err(fault),
            None => Ok(self.latency(block, now_ms)),
        }
    }
}

/// What a subscriber reads in a block is what the publisher stamped it with,
/// and the latency is the time between the two.
pub proof fn lemma_block_round_trip(format: BlockFormat, sent_ms: u64, now_ms: u64)
    requires
        HEADER_LEN <= format.spec_block_size(),
    ensures
        format.block(sent_ms).len() == format.spec_block_size(),
        magic_of(format.block(sent_ms)) == format.spec_magic(),
        sent_ms_of(format.block(sent_ms)) == sent_ms,
        format.fault_of(format.block(sent_ms), now_ms) is None <==> sent_ms <= now_ms,
{
    let block = format.block(sent_ms);
    lemma_be_round_trip(format.spec_magic());
    lemma_be_round_trip(sent_ms);
    assert(block.subrange(0, 8) =~= be_bytes(format.spec_magic() as nat, 8));
    assert(block.subrange(8, 16) =~= be_bytes(sent_ms as nat, 8));
}

/// Stamping a block again replaces its header and nothing else: whatever a
/// block was stamped with before, it becomes the block of the new time.
pub proof fn lemma_stamp_again(format: BlockFormat, earlier_ms: u64, sent_ms: u64)
    requires
        HEADER_LEN <= format.spec_block_size(),
    ensures
        be_bytes(format.spec_magic() as nat, 8) + be_bytes(sent_ms as nat, 8) + format.block(
            earlier_ms,
        ).skip(HEADER_LEN as int) == format.block(sent_ms),
        be_bytes(format.spec_magic() as nat, 8) + be_bytes(sent_ms as nat, 8) + filling(
            format.spec_block_size(),
        ).skip(HEADER_LEN as int) == format.block(sent_ms),
{
    lemma_be_round_trip(format.spec_magic());
    lemma_be_round_trip(earlier_ms);
    lemma_be_round_trip(sent_ms);
    let rest = filling((format.spec_block_size() - HEADER_LEN) as nat);
    assert(format.block(earlier_ms).skip(HEADER_LEN as int) =~= rest);
    assert(filling(format.spec_block_size()).skip(HEADER_LEN as int) =~= rest);
}

} // verus!
