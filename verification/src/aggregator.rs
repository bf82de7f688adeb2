//! Blocks out of a stream that arrives in pieces of any length.

use vstd::prelude::*;

use crate::block::{BlockFormat, HEADER_LEN};

verus! {

/// The whole blocks at the front of `bytes`, in order.
pub open spec fn blocks_of(bytes: Seq<u8>, size: nat) -> Seq<Seq<u8>> {
    Seq::new(bytes.len() / size, |i: int| bytes.subrange(i * size, (i + 1) * size))
}

/// What is left of `bytes` behind the whole blocks.
pub open spec fn rest_of(bytes: Seq<u8>, size: nat) -> Seq<u8> {
    bytes.skip(((bytes.len() / size) * size) as int)
}

/// The blocks' bytes, one block after the other.
pub open spec fn joined(blocks: Seq<Seq<u8>>) -> Seq<u8>
    decreases blocks.len(),
{
    if blocks.len() == 0 {
        Seq::empty()
    } else {
        joined(blocks.drop_last()) + blocks.last()
    }
}

/// The views of a list of byte vectors.
pub open spec fn views(blocks: Seq<Vec<u8>>) -> Seq<Seq<u8>> {
    blocks.map_values(|block: Vec<u8>| block@)
}

/// Where whole blocks come first, the blocks of the bytes are these, and then
/// those of what follows.
proof fn lemma_blocks_front(front: Seq<u8>, tail: Seq<u8>, size: nat)
    requires
        size > 0,
        front.len() % size == 0,
    ensures
        blocks_of(front + tail, size) == blocks_of(front, size) + blocks_of(tail, size),
        rest_of(front + tail, size) == rest_of(tail, size),
{
    let k = front.len() / size;
    let n = tail.len() / size;
    let all = front + tail;
    vstd::arithmetic::div_mod::lemma_fundamental_div_mod(front.len() as int, size as int);
    vstd::arithmetic::div_mod::lemma_fundamental_div_mod(tail.len() as int, size as int);
    assert(front.len() == k * size) by (nonlinear_arith)
        requires
            front.len() == size * k + front.len() % size,
            front.len() % size == 0,
    ;
    assert(all.len() == (k + n) * size + tail.len() % size) by (nonlinear_arith)
        requires
            all.len() == front.len() + tail.len(),
            front.len() == k * size,
            tail.len() == size * n + tail.len() % size,
    ;
    vstd::arithmetic::div_mod::lemma_fundamental_div_mod_converse(
        all.len() as int,
        size as int,
        (k + n) as int,
        (tail.len() % size) as int,
    );
    assert(all.len() / size == k + n);
    assert((k + n) * size == front.len() + n * size) by (nonlinear_arith)
        requires
            front.len() == k * size,
    ;
    assert(rest_of(all, size) =~= rest_of(tail, size));
    let left = blocks_of(all, size);
    let right = blocks_of(front, size) + blocks_of(tail, size);
    assert forall|i: int| 0 <= i < left.len() implies left[i] == right[i] by {
        if i < k {
            assert(0 <= i * size && (i + 1) * size <= front.len()) by (nonlinear_arith)
                requires
                    0 <= i < k,
                    front.len() == k * size,
            ;
            assert((i + 1) * size == i * size + size) by (nonlinear_arith);
            assert(left[i] =~= right[i]);
        } else {
            let j = i - k;
            assert(i * size == front.len() + j * size) by (nonlinear_arith)
                requires
                    i == k + j,
                    front.len() == k * size,
            ;
            assert((i + 1) * size == front.len() + (j + 1) * size) by (nonlinear_arith)
                requires
                    i == k + j,
                    front.len() == k * size,
            ;
            assert(0 <= j * size && (j + 1) * size <= tail.len()) by (nonlinear_arith)
                requires
                    0 <= j < n,
                    tail.len() == size * n + tail.len() % size,
            ;
            assert((j + 1) * size == j * size + size) by (nonlinear_arith);
            assert(left[i] =~= right[i]);
        }
    }
    assert(left =~= right);
}

/// Bytes that are no whole block yet are all rest.
proof fn lemma_short(bytes: Seq<u8>, size: nat)
    requires
        bytes.len() < size,
    ensures
        blocks_of(bytes, size) == Seq::<Seq<u8>>::empty(),
        rest_of(bytes, size) == bytes,
{
    vstd::arithmetic::div_mod::lemma_basic_div(bytes.len() as int, size as int);
    assert(0 * size == 0) by (nonlinear_arith);
    assert(blocks_of(bytes, size) =~= Seq::<Seq<u8>>::empty());
    assert(rest_of(bytes, size) =~= bytes);
}

/// Bytes of exactly one block are that block.
proof fn lemma_single(bytes: Seq<u8>, size: nat)
    requires
        bytes.len() == size,
        size > 0,
    ensures
        blocks_of(bytes, size) == seq![bytes],
        rest_of(bytes, size) == Seq::<u8>::empty(),
{
    vstd::arithmetic::div_mod::lemma_div_by_self(size as int);
    assert(0 * size == 0 && 1 * size == size) by (nonlinear_arith);
    assert(bytes.subrange(0, size as int) =~= bytes);
    assert(blocks_of(bytes, size) =~= seq![bytes]);
    assert(rest_of(bytes, size) =~= Seq::<u8>::empty());
}

/// The part of `bytes` that the whole blocks cover.
proof fn lemma_split(bytes: Seq<u8>, size: nat) -> (front: Seq<u8>)
    requires
        size > 0,
    ensures
        bytes == front + rest_of(bytes, size),
        front.len() % size == 0,
        rest_of(bytes, size).len() < size,
        blocks_of(front, size) == blocks_of(bytes, size),
{
    let k = bytes.len() / size;
    vstd::arithmetic::div_mod::lemma_fundamental_div_mod(bytes.len() as int, size as int);
    vstd::arithmetic::div_mod::lemma_mod_bound(bytes.len() as int, size as int);
    assert(k * size == size * k) by (nonlinear_arith);
    let front = bytes.take((k * size) as int);
    let rest = rest_of(bytes, size);
    assert(bytes =~= front + rest);
    vstd::arithmetic::div_mod::lemma_mod_multiples_basic(k as int, size as int);
    lemma_blocks_front(front, rest, size);
    lemma_short(rest, size);
    assert(blocks_of(front, size) + Seq::<Seq<u8>>::empty() =~= blocks_of(front, size));
    front
}

/// Blocks that were joined come apart again, each as it was, with nothing left
/// over.
pub proof fn lemma_blocks_of_joined(blocks: Seq<Seq<u8>>, size: nat)
    requires
        size > 0,
        forall|i: int| 0 <= i < blocks.len() ==> (#[trigger] blocks[i]).len() == size,
    ensures
        joined(blocks).len() == blocks.len() * size,
        blocks_of(joined(blocks), size) == blocks,
        rest_of(joined(blocks), size) == Seq::<u8>::empty(),
    decreases blocks.len(),
{
    if blocks.len() == 0 {
        assert(0 * size == 0) by (nonlinear_arith);
        lemma_short(joined(blocks), size);
        assert(blocks =~= Seq::<Seq<u8>>::empty());
    } else {
        let front = blocks.drop_last();
        assert forall|i: int| 0 <= i < front.len() implies (#[trigger] front[i]).len() == size by {
            assert(front[i] == blocks[i]);
        }
        lemma_blocks_of_joined(front, size);
        lemma_single(blocks.last(), size);
        assert(joined(front).len() % size == 0) by {
            vstd::arithmetic::div_mod::lemma_mod_multiples_basic(front.len() as int, size as int);
        }
        lemma_blocks_front(joined(front), blocks.last(), size);
        assert(front + seq![blocks.last()] =~= blocks);
        assert(blocks.len() * size == front.len() * size + size) by (nonlinear_arith)
            requires
                blocks.len() == front.len() + 1,
        ;
    }
}

proof fn lemma_joined_add(a: Seq<Seq<u8>>, b: Seq<Seq<u8>>)
    ensures
        joined(a + b) == joined(a) + joined(b),
    decreases b.len(),
{
    if b.len() == 0 {
        assert(a + b =~= a);
        assert(joined(a) + joined(b) =~= joined(a));
    } else {
        assert((a + b).drop_last() =~= a + b.drop_last());
        lemma_joined_add(a, b.drop_last());
        assert(joined(a + b) =~= joined(a) + joined(b));
    }
}

/// Nothing is lost, nothing is made up: the blocks and the rest are the bytes,
/// the blocks have the size of a block, and the rest is shorter than one.
pub proof fn lemma_blocks_and_rest(bytes: Seq<u8>, size: nat)
    requires
        size > 0,
    ensures
        joined(blocks_of(bytes, size)) + rest_of(bytes, size) == bytes,
        forall|i: int|
            0 <= i < blocks_of(bytes, size).len() ==> (#[trigger] blocks_of(bytes, size)[i]).len()
                == size,
        rest_of(bytes, size).len() < size,
    decreases bytes.len(),
{
    if bytes.len() < size {
        lemma_short(bytes, size);
        assert(joined(blocks_of(bytes, size)) + rest_of(bytes, size) =~= bytes);
    } else {
        let first = bytes.take(size as int);
        let tail = bytes.skip(size as int);
        assert(bytes =~= first + tail);
        lemma_single(first, size);
        assert(first.len() % size == 0) by {
            vstd::arithmetic::div_mod::lemma_mod_self_0(size as int);
        }
        lemma_blocks_front(first, tail, size);
        lemma_blocks_and_rest(tail, size);
        lemma_joined_add(seq![first], blocks_of(tail, size));
        assert(seq![first].drop_last() =~= Seq::<Seq<u8>>::empty());
        assert(joined(seq![first]) =~= first) by {
            assert(joined(seq![first].drop_last()) == Seq::<u8>::empty());
        }
        assert(joined(blocks_of(bytes, size)) + rest_of(bytes, size) =~= bytes);
        assert forall|i: int| 0 <= i < blocks_of(bytes, size).len() implies (
            #[trigger] blocks_of(bytes, size)[i]).len() == size by {
            if i > 0 {
                assert(blocks_of(bytes, size)[i] == blocks_of(tail, size)[i - 1]);
            }
        }
    }
}

/// It does not matter where the bytes are cut: taking the blocks out of the
/// first part, and then out of its rest followed by the second part, gives the
/// blocks and the rest of the whole.
pub proof fn lemma_any_cut(first: Seq<u8>, second: Seq<u8>, size: nat)
    requires
        size > 0,
    ensures
        blocks_of(first + second, size) == blocks_of(first, size) + blocks_of(
            rest_of(first, size) + second,
            size,
        ),
        rest_of(first + second, size) == rest_of(rest_of(first, size) + second, size),
{
    let front = lemma_split(first, size);
    let rest = rest_of(first, size);
    assert(first + second =~= front + (rest + second));
    lemma_blocks_front(front, rest + second, size);
}

/// The blocks of the first `len` bytes are the first blocks of the bytes.
pub proof fn lemma_blocks_of_prefix(bytes: Seq<u8>, len: nat, size: nat)
    requires
        size > 0,
        len <= bytes.len(),
    ensures
        len / size <= bytes.len() / size,
        blocks_of(bytes.take(len as int), size) == blocks_of(bytes, size).take(
            (len / size) as int,
        ),
{
    let some = blocks_of(bytes.take(len as int), size);
    let all = blocks_of(bytes, size);
    vstd::arithmetic::div_mod::lemma_div_is_ordered(len as int, bytes.len() as int, size as int);
    vstd::arithmetic::div_mod::lemma_fundamental_div_mod(len as int, size as int);
    vstd::arithmetic::div_mod::lemma_mod_bound(len as int, size as int);
    assert forall|i: int| 0 <= i < some.len() implies some[i] == all[i] by {
        assert(0 <= i * size <= (i + 1) * size <= len) by (nonlinear_arith)
            requires
                0 <= i < len / size,
                len == size * (len / size) + len % size,
                len % size >= 0,
        ;
        assert(some[i] =~= all[i]);
    }
    assert(some =~= all.take((len / size) as int));
}

/// The blocks that come out when `pieces` arrive one after the other, after
/// `pending` bytes that are no whole block.
pub open spec fn blocks_fed(pending: Seq<u8>, pieces: Seq<Seq<u8>>, size: nat) -> Seq<Seq<u8>>
    decreases pieces.len(),
{
    if pieces.len() == 0 {
        Seq::empty()
    } else {
        blocks_fed(pending, pieces.drop_last(), size) + blocks_of(
            rest_fed(pending, pieces.drop_last(), size) + pieces.last(),
            size,
        )
    }
}

/// The bytes that are pending after `pieces` arrived.
pub open spec fn rest_fed(pending: Seq<u8>, pieces: Seq<Seq<u8>>, size: nat) -> Seq<u8>
    decreases pieces.len(),
{
    if pieces.len() == 0 {
        pending
    } else {
        rest_of(rest_fed(pending, pieces.drop_last(), size) + pieces.last(), size)
    }
}

/// However a stream is cut into pieces, the same blocks come out of it.
pub proof fn lemma_any_pieces(pending: Seq<u8>, pieces: Seq<Seq<u8>>, size: nat)
    requires
        pending.len() < size,
    ensures
        blocks_fed(pending, pieces, size) == blocks_of(pending + joined(pieces), size),
        rest_fed(pending, pieces, size) == rest_of(pending + joined(pieces), size),
    decreases pieces.len(),
{
    if pieces.len() == 0 {
        assert(pending + joined(pieces) =~= pending);
        lemma_short(pending, size);
    } else {
        let earlier = pieces.drop_last();
        lemma_any_pieces(pending, earlier, size);
        lemma_any_cut(pending + joined(earlier), pieces.last(), size);
        assert(pending + joined(pieces) =~= pending + joined(earlier) + pieces.last());
    }
}

/// Collects the bytes of a stream and hands out the whole blocks among them.
pub struct BlockAggregator {
    format: BlockFormat,
    pending: Vec<u8>,
}

impl BlockAggregator {
    /// What is kept is less than a block, and blocks fit into memory.
    pub open spec fn wf(self) -> bool {
        self.pending().len() < self.format().spec_block_size() <= usize::MAX / 6
    }

    pub closed spec fn format(self) -> BlockFormat {
        self.format
    }

    /// The bytes that were taken in since the last whole block.
    pub closed spec fn pending(self) -> Seq<u8> {
        self.pending@
    }

    pub fn new(format: BlockFormat) -> (aggregator: BlockAggregator)
        ensures
            aggregator.wf(),
            aggregator.format() == format,
            aggregator.pending() == Seq::<u8>::empty(),
    {
        let size: usize = format.block_size();
        BlockAggregator { format, pending: Vec::with_capacity(size * 2) }
    }

    /// How many bytes to read from a stream at a time: two blocks.
    pub fn read_size(&self) -> (size: usize)
        ensures
            size == 2 * self.format().spec_block_size(),
    {
        self.format.block_size() * 2
    }

    /// Takes in the next bytes of the stream and hands out the blocks that are
    /// whole now, in order.
    pub fn ingest(&mut self, data: &[u8]) -> (blocks: Vec<Vec<u8>>)
        requires
            old(self).wf(),
            old(self).pending().len() + data@.len() <= usize::MAX / 2,
        ensures
            final(self).wf(),
            final(self).format() == old(self).format(),
            views(blocks@) == blocks_of(
                old(self).pending() + data@,
                old(self).format().spec_block_size(),
            ),
            final(self).pending() == rest_of(
                old(self).pending() + data@,
                old(self).format().spec_block_size(),
            ),
    {
        let size: usize = self.format.block_size();
        let ghost all = self.pending@ + data@;
        let mut blocks: Vec<Vec<u8>> = Vec::new();
        self.pending.extend_from_slice(data);
        assert(self.pending@ =~= all);
        assert(views(blocks@) + blocks_of(all, size as nat) =~= blocks_of(all, size as nat));
        while self.pending.len() >= size
            invariant
                size == self.format.spec_block_size(),
                size >= HEADER_LEN,
                self.format == old(self).format,
                views(blocks@) + blocks_of(self.pending@, size as nat) == blocks_of(
                    all,
                    size as nat,
                ),
                rest_of(self.pending@, size as nat) == rest_of(all, size as nat),
            decreases self.pending.len(),
        {
            let ghost before = self.pending@;
            let ghost done = views(blocks@);
            let mut block: Vec<u8> = self.pending.split_off(size);
            std::mem::swap(&mut block, &mut self.pending);
            proof {
                assert(before =~= block@ + self.pending@);
                lemma_single(block@, size as nat);
                vstd::arithmetic::div_mod::lemma_mod_self_0(size as int);
                lemma_blocks_front(block@, self.pending@, size as nat);
            }
            blocks.push(block);
            proof {
                assert(views(blocks@) =~= done.push(block@));
                assert(views(blocks@) + blocks_of(self.pending@, size as nat) =~= done + (
                seq![block@] + blocks_of(self.pending@, size as nat)));
            }
        }
        proof {
            lemma_short(self.pending@, size as nat);
            assert(views(blocks@) =~= views(blocks@) + Seq::<Seq<u8>>::empty());
        }
        blocks
    }
}

} // verus!
