//! In-memory buffer for blocks that the underlying store does not hold yet.
use std::collections::BTreeMap;
use std::ops::Range;

use vstd::prelude::*;
use vstd::std_specs::iter::IteratorSpec;

use crate::block::{option_view, BlockNumber, BlockView, FinalBlock};
use crate::missing::MissingBlockNumbers;
use crate::ordered::{
    drop_below, lemma_iter_lists_in_order, lists_in_order, lists_keys, sorted_keys,
};

verus! {

/// State of a [`BlockBuffer`].
#[verifier::ext_equal]
pub struct BufferView<B> {
    /// Number of the last block in the underlying store.
    pub store_block_number: int,
    /// Whether a block has been handed to the underlying store that it has not reported yet.
    pub is_block_scheduled: bool,
    /// Buffered blocks by number.
    pub blocks: Map<int, BlockView<B>>,
}

impl<B> BufferView<B> {
    /// Buffered blocks are filed under their own numbers, which all lie above the underlying
    /// store, and a scheduled block is still in the buffer.
    pub open spec fn wf(self) -> bool {
        &&& 0 <= self.store_block_number <= u64::MAX
        &&& forall|n: int| #[trigger]
            self.blocks.contains_key(n) ==> {
                &&& self.store_block_number < n <= u64::MAX
                &&& self.blocks[n].number == n
            }
        &&& self.is_block_scheduled ==> self.blocks.contains_key(self.store_block_number + 1)
    }

    /// An empty buffer over a store whose last block is `store_block_number`.
    pub open spec fn empty(store_block_number: int) -> BufferView<B> {
        BufferView { store_block_number, is_block_scheduled: false, blocks: Map::empty() }
    }

    /// The state between two operations: the next block for the underlying store is scheduled if
    /// and only if it is there.
    pub open spec fn settled(self) -> bool {
        &&& self.wf()
        &&& self.is_block_scheduled <==> self.blocks.contains_key(self.store_block_number + 1)
    }

    /// The buffered block with number `n`.
    pub open spec fn buffered(self, n: int) -> Option<BlockView<B>> {
        if self.blocks.contains_key(n) {
            Some(self.blocks[n])
        } else {
            None
        }
    }

    /// The buffer once `block` has been put into it.
    pub open spec fn put(self, block: BlockView<B>) -> BufferView<B> {
        BufferView { blocks: self.blocks.insert(block.number, block), ..self }
    }

    /// The buffer once the underlying store has reported `n` as its last block.
    pub open spec fn set_store(self, n: int) -> BufferView<B> {
        BufferView {
            store_block_number: n,
            is_block_scheduled: false,
            blocks: self.blocks.restrict(Set::new(|m: int| n < m)),
        }
    }

    /// The block that can be handed to the underlying store now.
    pub open spec fn schedulable(self) -> Option<BlockView<B>> {
        if !self.is_block_scheduled && self.blocks.contains_key(self.store_block_number + 1) {
            Some(self.blocks[self.store_block_number + 1])
        } else {
            None
        }
    }

    /// The buffer once the block that can be handed to the underlying store, if any, has been.
    pub open spec fn schedule(self) -> BufferView<B> {
        BufferView {
            is_block_scheduled: self.is_block_scheduled || self.schedulable() is Some,
            ..self
        }
    }

    /// The underlying store can report `n` as its last block: it has been given that block, and
    /// nothing else.
    pub open spec fn accepts_store_update(self, n: int) -> bool {
        &&& n == self.store_block_number + 1
        &&& n < u64::MAX
        &&& self.is_block_scheduled
    }

    /// The block handed to the underlying store when it reports `n` as its last block.
    pub open spec fn handed_on_store_update(self, n: int) -> Option<BlockView<B>> {
        self.set_store(n).schedulable()
    }

    /// The state after the underlying store has reported `n` as its last block.
    pub open spec fn after_store_update(self, n: int) -> BufferView<B> {
        self.set_store(n).schedule()
    }

    /// The block handed to the underlying store when `block` comes in.
    pub open spec fn handed_on_put(self, block: BlockView<B>) -> Option<BlockView<B>> {
        if block.number <= self.store_block_number {
            None
        } else {
            self.put(block).schedulable()
        }
    }

    /// The state after `block` has come in. A block that the underlying store has already changes
    /// nothing.
    pub open spec fn after_put(self, block: BlockView<B>) -> BufferView<B> {
        if block.number <= self.store_block_number {
            self
        } else {
            self.put(block).schedule()
        }
    }

    /// The number announced to subscribers when `block` comes in, given whether scheduling went
    /// well (which it does if there is nothing to schedule). Nothing is announced of a block that
    /// is refused or whose scheduling fails.
    pub open spec fn announced_on_put(self, block: BlockView<B>, scheduled: bool) -> Option<int> {
        if self.store_block_number < block.number && scheduled {
            Some(block.number)
        } else {
            None
        }
    }

    /// `n` is the greatest number of a buffered block.
    pub open spec fn is_head(self, n: int) -> bool {
        &&& self.blocks.contains_key(n)
        &&& forall|m: int| #[trigger] self.blocks.contains_key(m) ==> m <= n
    }

    /// `n` ends the run of block numbers that the store and the buffer hold without a gap.
    pub open spec fn is_last_contiguous(self, n: int) -> bool {
        &&& self.store_block_number <= n
        &&& forall|m: int|
            self.store_block_number < m <= n ==> #[trigger] self.blocks.contains_key(m)
        &&& !self.blocks.contains_key(n + 1)
    }

    /// `n` is at least `start` and less than `end`, and neither the store nor the buffer holds a
    /// block of that number.
    pub open spec fn is_missing(self, start: int, end: int, n: int) -> bool {
        &&& start <= n < end
        &&& self.store_block_number < n
        &&& !self.blocks.contains_key(n)
    }

    /// `numbers` are, in increasing order, the missing numbers from `start` up to, but not
    /// including, `end`.
    pub open spec fn lists_missing(self, start: int, end: int, numbers: Seq<BlockNumber>) -> bool {
        &&& forall|i: int, j: int|
            0 <= i < j < numbers.len() ==> (#[trigger] numbers[i])@ < (#[trigger] numbers[j])@
        &&& forall|i: int|
            0 <= i < numbers.len() ==> self.is_missing(start, end, (#[trigger] numbers[i])@)
        &&& forall|n: int| #[trigger]
            self.is_missing(start, end, n) ==> exists|i: int|
                0 <= i < numbers.len() && (#[trigger] numbers[i])@ == n
    }
}

/// Blocks received ahead of the underlying store, waiting to be handed to it in order.
#[derive(Debug)]
pub struct BlockBuffer<B> {
    store_block_number: BlockNumber,
    is_block_scheduled: bool,
    blocks: BTreeMap<u64, FinalBlock<B>>,
}

/// Views of the blocks of `map`, by number.
spec fn blocks_view<B>(map: Map<u64, FinalBlock<B>>) -> Map<int, BlockView<B>> {
    Map::new(
        |n: int| 0 <= n <= u64::MAX && map.contains_key(n as u64),
        |n: int| map[n as u64]@,
    )
}

impl<B> View for BlockBuffer<B> {
    type V = BufferView<B>;

    closed spec fn view(&self) -> BufferView<B> {
        BufferView {
            store_block_number: self.store_block_number@,
            is_block_scheduled: self.is_block_scheduled,
            blocks: blocks_view(self.blocks@),
        }
    }
}

impl<B> BlockBuffer<B> {
    /// Creates an empty buffer over a store whose last block is `store_block_number`.
    pub fn new(store_block_number: BlockNumber) -> (buffer: BlockBuffer<B>)
        ensures
            buffer@.wf(),
            buffer@ == BufferView::<B>::empty(store_block_number@),
            buffer@.store_block_number == store_block_number.0,
            !buffer@.is_block_scheduled,
            forall|n: int| !#[trigger] buffer@.blocks.contains_key(n),
    {
        let buffer = BlockBuffer {
            store_block_number,
            is_block_scheduled: false,
            blocks: BTreeMap::new(),
        };
        assert(buffer@.blocks =~= Map::empty());
        buffer
    }

    /// Returns the buffered block with the greatest number.
    pub fn head_block(&self) -> (head: Option<FinalBlock<B>>)
        requires
            self@.wf(),
        ensures
            match head {
                Some(block) => {
                    &&& self@.is_head(block@.number)
                    &&& self@.blocks[block@.number] == block@
                    &&& self@.blocks.contains_key(block.header.number.0 as int)
                    &&& forall|m: int| #[trigger]
                        self@.blocks.contains_key(m) ==> m <= block.header.number.0
                },
                None => self@.blocks =~= Map::empty(),
            },
    {
        let mut head: Option<&FinalBlock<B>> = None;
        let entries = self.blocks.iter();
        let ghost all = entries.remaining();
        proof {
            lemma_iter_lists_in_order(&self.blocks, all);
        }
        for (_number, block) in it: entries
            invariant
                it.seq() == all,
                it.index() == 0 ==> head is None,
                it.index() > 0 ==> head == Some(all[it.index() - 1].1),
        {
            head = Some(block);
        }
        match head {
            Some(block) => {
                assert(block == all[all.len() - 1].1);
                assert(self@.blocks.contains_key(*all[all.len() - 1].0 as int));
                Some(block.clone())
            },
            None => None,
        }
    }

    /// Takes note of the underlying store having advanced to `store_block_number`, and drops the
    /// blocks that it holds now.
    ///
    /// The store must have advanced by exactly one block, and that block must have been scheduled.
    pub fn set_store_block(&mut self, store_block_number: BlockNumber)
        requires
            old(self)@.wf(),
            store_block_number@ == old(self)@.store_block_number + 1,
            store_block_number@ < u64::MAX,
            old(self)@.is_block_scheduled,
        ensures
            final(self)@.wf(),
            final(self)@ == old(self)@.set_store(store_block_number@),
            final(self)@.store_block_number == store_block_number.0,
            !final(self)@.is_block_scheduled,
            forall|n: int| #[trigger]
                final(self)@.blocks.contains_key(n) <==> old(self)@.blocks.contains_key(n)
                    && store_block_number.0 < n,
            forall|n: int| #[trigger]
                final(self)@.blocks.contains_key(n) ==> final(self)@.blocks[n]
                    == old(self)@.blocks[n],
    {
        drop_below(&mut self.blocks, store_block_number.next().0);
        self.store_block_number = store_block_number;
        self.is_block_scheduled = false;
        assert(self@.blocks =~= old(self)@.set_store(store_block_number@).blocks);
    }

    /// Returns the last number of the unbroken run of blocks that starts in the underlying store.
    pub fn last_contiguous_block_number(&self) -> (last: BlockNumber)
        requires
            self@.wf(),
        ensures
            self@.is_last_contiguous(last@),
            self@.store_block_number <= last.0,
            forall|m: int|
                self@.store_block_number < m <= last.0 ==> #[trigger] self@.blocks.contains_key(m),
            !self@.blocks.contains_key(last.0 + 1),
    {
        // Blocks in the underlying store are always contiguous.
        let mut last_number = self.store_block_number;
        let entries = self.blocks.iter();
        let ghost all = entries.remaining();
        proof {
            lemma_iter_lists_in_order(&self.blocks, all);
        }
        for (number, _block) in it: entries
            invariant
                it.seq() == all,
                lists_in_order(all, self.blocks@),
                self@.wf(),
                it.index() == 0 ==> last_number == self.store_block_number,
                it.index() > 0 ==> last_number.0 == *all[it.index() - 1].0,
                self@.store_block_number <= last_number@,
                forall|m: int|
                    self@.store_block_number < m <= last_number@
                        ==> #[trigger] self@.blocks.contains_key(m),
        {
            assert(self@.blocks.contains_key(*all[it.index()].0 as int));
            if *number > last_number.next().0 {
                assert forall|m: int| m == last_number@ + 1 implies !#[trigger] self@.blocks.contains_key(
                    m,
                ) by {
                    if self@.blocks.contains_key(m) {
                        let i = choose|i: int| 0 <= i < all.len() && *(#[trigger] all[i]).0 == m as u64;
                        assert(i < it.index() || *all[it.index()].0 <= *all[i].0);
                        assert(it.index() - 1 <= i || *all[i].0 < *all[it.index() - 1].0);
                    }
                }
                return last_number;
            }
            last_number = BlockNumber(*number);
        }
        assert forall|m: int| m == last_number@ + 1 implies !#[trigger] self@.blocks.contains_key(m) by {
            if self@.blocks.contains_key(m) {
                let i = choose|i: int| 0 <= i < all.len() && *(#[trigger] all[i]).0 == m as u64;
                assert(i == all.len() - 1 || *all[i].0 < *all[all.len() - 1].0);
            }
        }
        last_number
    }

    /// Returns, in increasing order, the numbers of `range` that neither the underlying store nor
    /// the buffer has a block for.
    pub fn missing_block_numbers(&self, range: Range<BlockNumber>) -> (numbers: Vec<BlockNumber>)
        requires
            self@.wf(),
            self@.store_block_number < u64::MAX,
        ensures
            self@.lists_missing(range.start@, range.end@, numbers@),
            forall|i: int, j: int|
                0 <= i < j < numbers@.len() ==> (#[trigger] numbers@[i]).0 < (
                #[trigger] numbers@[j]).0,
            forall|i: int|
                0 <= i < numbers@.len() ==> {
                    &&& range.start.0 <= (#[trigger] numbers@[i]).0 < range.end.0
                    &&& self@.store_block_number < numbers@[i].0
                    &&& !self@.blocks.contains_key(numbers@[i].0 as int)
                },
            forall|n: u64|
                {
                    &&& range.start.0 <= n < range.end.0
                    &&& self@.store_block_number < n
                    &&& !self@.blocks.contains_key(n as int)
                } ==> #[trigger] numbers@.contains(BlockNumber(n)),
    {
        // Numbers up to the last stored one are never missing.
        let first_unstored = self.store_block_number.next();
        let start = if range.start.0 < first_unstored.0 {
            first_unstored
        } else {
            range.start
        };
        let end = range.end;
        if start.0 >= end.0 {
            return Vec::new();
        }
        let keys = sorted_keys(&self.blocks);
        let mut existing: Vec<BlockNumber> = Vec::new();
        let mut next: usize = 0;
        while next < keys.len() && keys[next] < end.0
            invariant
                lists_keys(keys@, self.blocks@),
                next <= keys@.len(),
                forall|i: int| 0 <= i < next ==> #[trigger] keys@[i] < end.0,
                forall|i: int, j: int|
                    0 <= i < j < existing@.len() ==> (#[trigger] existing@[i])@ < (
                    #[trigger] existing@[j])@,
                forall|i: int|
                    0 <= i < existing@.len() ==> start@ <= (#[trigger] existing@[i])@
                        && self.blocks@.contains_key(existing@[i].0),
                forall|i: int, j: int|
                    0 <= i < existing@.len() && next <= j < keys@.len() ==> (
                    #[trigger] existing@[i])@ < #[trigger] keys@[j],
                forall|i: int|
                    0 <= i < next && start.0 <= #[trigger] keys@[i] ==> existing@.contains(
                        BlockNumber(keys@[i]),
                    ),
            decreases keys@.len() - next,
        {
            let ghost listed = existing@;
            if start.0 <= keys[next] {
                existing.push(BlockNumber(keys[next]));
                assert(existing@[listed.len() as int] == BlockNumber(keys@[next as int]));
                assert forall|n: BlockNumber| #[trigger] listed.contains(n) implies existing@.contains(
                    n,
                ) by {
                    let i = choose|i: int| 0 <= i < listed.len() && listed[i] == n;
                    assert(existing@[i] == n);
                }
            }
            next = next + 1;
        }
        let ghost present = existing@;
        let missing = MissingBlockNumbers::new(Range { start, end }, existing);
        assert forall|n: int| self@.is_missing(range.start@, range.end@, n) <==> #[trigger] missing.missing(
            n,
        ) by {
            if missing.missing(n) && self@.blocks.contains_key(n) {
                let i = choose|i: int| 0 <= i < keys@.len() && keys@[i] == n as u64;
                assert(keys@.contains(n as u64));
                assert(i < next || keys@[next as int] <= keys@[i]);
                let j = choose|j: int| 0 <= j < present.len() && present[j] == BlockNumber(n as u64);
                assert(present.contains(BlockNumber(n as u64)));
                assert(present[j]@ == n);
            }
        }
        let numbers = missing.collect();
        assert forall|n: int| #[trigger]
            self@.is_missing(range.start@, range.end@, n) implies exists|i: int|
            0 <= i < numbers@.len() && (#[trigger] numbers@[i])@ == n by {
            assert(missing.missing(n));
        }
        assert forall|n: u64|
            {
                &&& range.start.0 <= n < range.end.0
                &&& self@.store_block_number < n
                &&& !self@.blocks.contains_key(n as int)
            } implies #[trigger] numbers@.contains(BlockNumber(n)) by {
            assert(self@.is_missing(range.start@, range.end@, n as int));
            let i = choose|i: int| 0 <= i < numbers@.len() && (#[trigger] numbers@[i])@ == n;
            assert(numbers@[i] == BlockNumber(n));
        }
        numbers
    }

    /// Puts a block into the buffer. It must not be in the underlying store already.
    pub fn put_block(&mut self, block: FinalBlock<B>)
        requires
            old(self)@.wf(),
            old(self)@.store_block_number < block@.number,
        ensures
            final(self)@.wf(),
            final(self)@ == old(self)@.put(block@),
            final(self)@.store_block_number == old(self)@.store_block_number,
            final(self)@.is_block_scheduled == old(self)@.is_block_scheduled,
            final(self)@.blocks == old(self)@.blocks.insert(
                block.header.number.0 as int,
                block@,
            ),
    {
        self.blocks.insert(block.header.number.0, block);
        assert(self@.blocks =~= old(self)@.put(block@).blocks);
    }

    /// Returns the block to hand to the underlying store next, unless it is not there yet or the
    /// store is still busy with the previous one.
    pub fn next_block_for_store(&mut self) -> (next_block: Option<FinalBlock<B>>)
        requires
            old(self)@.wf(),
            !old(self)@.is_block_scheduled ==> old(self)@.store_block_number < u64::MAX,
        ensures
            final(self)@.wf(),
            final(self)@ == old(self)@.schedule(),
            option_view(next_block) == old(self)@.schedulable(),
            final(self)@.store_block_number == old(self)@.store_block_number,
            final(self)@.blocks == old(self)@.blocks,
            final(self)@.is_block_scheduled <==> old(self)@.is_block_scheduled || next_block is Some,
            next_block is Some <==> !old(self)@.is_block_scheduled
                && old(self)@.blocks.contains_key(old(self)@.store_block_number + 1),
            next_block matches Some(block) ==> block@
                == old(self)@.blocks[old(self)@.store_block_number + 1],
    {
        if self.is_block_scheduled {
            None
        } else {
            let next_block = self.block(self.store_block_number.next());
            self.is_block_scheduled = next_block.is_some();
            next_block
        }
    }

    /// Returns the buffered block with the given number.
    pub fn block(&self, number: BlockNumber) -> (block: Option<FinalBlock<B>>)
        ensures
            option_view(block) == self@.buffered(number@),
            block is Some <==> self@.blocks.contains_key(number.0 as int),
            block matches Some(block) ==> block@ == self@.blocks[number.0 as int],
    {
        match self.blocks.get(&number.0) {
            Some(block) => Some(block.clone()),
            None => None,
        }
    }

    /// Returns the number of the last block in the underlying store.
    pub fn store_block_number(&self) -> (number: BlockNumber)
        ensures
            number@ == self@.store_block_number,
    {
        self.store_block_number
    }

    /// Whether a block has been scheduled that the underlying store has not reported yet.
    pub fn is_block_scheduled(&self) -> (scheduled: bool)
        ensures
            scheduled == self@.is_block_scheduled,
    {
        self.is_block_scheduled
    }

    /// Returns the number of buffered blocks.
    pub fn len(&self) -> (len: usize)
        ensures
            self@.blocks.dom().finite(),
            len == self@.blocks.dom().len(),
    {
        proof {
            let keys = self.blocks@.dom();
            let numbers = self@.blocks.dom();
            let number = |k: u64| k as int;
            assert(numbers =~= keys.map(number)) by {
                assert forall|n: int| #[trigger] numbers.contains(n) implies keys.map(number).contains(n) by {
                    assert(keys.contains(n as u64) && number(n as u64) == n);
                }
            }
            vstd::set_lib::lemma_map_size(keys, numbers, number);
        }
        self.blocks.len()
    }
}

} // verus!
