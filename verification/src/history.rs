//! What holds of a buffered store over its whole life.
//!
//! A history is the sequence of things that happen to a buffered store: blocks come in, and the
//! underlying store reports new blocks.
use vstd::prelude::*;

use crate::block::{BlockNumber, BlockView};
use crate::buffer::BufferView;

verus! {

/// Something that happens to a buffered store.
pub enum Happening<B> {
    /// A block comes in.
    Put(BlockView<B>),
    /// The underlying store reports a new last block.
    StoreUpdate(int),
}

impl<B> BufferView<B> {
    /// `happening` can happen in this state.
    pub open spec fn accepts(self, happening: Happening<B>) -> bool {
        match happening {
            Happening::Put(block) => 0 <= block.number <= u64::MAX,
            Happening::StoreUpdate(n) => self.accepts_store_update(n),
        }
    }

    /// The state after `happening`.
    pub open spec fn after(self, happening: Happening<B>) -> BufferView<B> {
        match happening {
            Happening::Put(block) => self.after_put(block),
            Happening::StoreUpdate(n) => self.after_store_update(n),
        }
    }

    /// The block that `happening` makes the store hand on, if any.
    pub open spec fn handed_on(self, happening: Happening<B>) -> Option<BlockView<B>> {
        match happening {
            Happening::Put(block) => self.handed_on_put(block),
            Happening::StoreUpdate(n) => self.handed_on_store_update(n),
        }
    }

    /// The state after all of `history`.
    pub open spec fn after_all(self, history: Seq<Happening<B>>) -> BufferView<B>
        decreases history.len(),
    {
        if history.len() == 0 {
            self
        } else {
            self.after_all(history.drop_last()).after(history.last())
        }
    }

    /// `history` can happen from this state on.
    pub open spec fn accepts_all(self, history: Seq<Happening<B>>) -> bool
        decreases history.len(),
    {
        history.len() > 0 ==> {
            &&& self.accepts_all(history.drop_last())
            &&& self.after_all(history.drop_last()).accepts(history.last())
        }
    }

    /// The blocks handed to the underlying store in the course of `history`, in order.
    pub open spec fn all_handed(self, history: Seq<Happening<B>>) -> Seq<BlockView<B>>
        decreases history.len(),
    {
        if history.len() == 0 {
            Seq::empty()
        } else {
            let handed = self.all_handed(history.drop_last());
            match self.after_all(history.drop_last()).handed_on(history.last()) {
                Some(block) => handed.push(block),
                None => handed,
            }
        }
    }

    /// `history[i]` is a put that ends well: the block is not refused, and scheduling goes well.
    /// `scheduled` says of each entry of `history` whether scheduling went well.
    pub open spec fn put_ends_well(
        self,
        history: Seq<Happening<B>>,
        scheduled: Seq<bool>,
        i: int,
    ) -> bool {
        &&& 0 <= i < history.len()
        &&& history[i] matches Happening::Put(block)
        &&& self.after_all(history.take(i)).announced_on_put(block, scheduled[i]) is Some
    }

    /// The number that subscribers see after `history`, which starts with a new store in this
    /// state. At first it is that of the underlying store, and each put may announce another.
    pub open spec fn announced(self, history: Seq<Happening<B>>, scheduled: Seq<bool>) -> int
        decreases history.len(),
    {
        if history.len() == 0 {
            self.store_block_number
        } else {
            let before = history.drop_last();
            let announced = self.announced(before, scheduled.drop_last());
            match history.last() {
                Happening::Put(block) => match self.after_all(before).announced_on_put(
                    block,
                    scheduled.last(),
                ) {
                    Some(number) => number,
                    None => announced,
                },
                Happening::StoreUpdate(_) => announced,
            }
        }
    }
}

/// A block that comes in is put beside the others, in place of one of the same number. If it directly
/// follows the underlying store, and the store is not busy, it is handed on at once. A block that
/// the store has already changes nothing.
pub proof fn lemma_what_a_put_does<B>(state: BufferView<B>, block: BlockView<B>, n: int)
    requires
        state.settled(),
    ensures
        ({
            let after = state.after_put(block);
            let handed = state.handed_on_put(block);
            &&& after.store_block_number == state.store_block_number
            &&& block.number <= state.store_block_number ==> after == state && handed is None
            &&& state.store_block_number < block.number ==> {
                &&& after.blocks.contains_key(block.number)
                &&& after.blocks[block.number] == block
                &&& after.is_block_scheduled <==> state.is_block_scheduled || handed is Some
                &&& handed is Some <==> {
                    &&& !state.is_block_scheduled
                    &&& block.number == state.store_block_number + 1
                }
                &&& handed is Some ==> handed == Some(block)
            }
            &&& n != block.number ==> {
                &&& after.blocks.contains_key(n) <==> state.blocks.contains_key(n)
                &&& state.blocks.contains_key(n) ==> after.blocks[n] == state.blocks[n]
            }
        }),
{
}

/// When the underlying store reports a new last block, the buffer drops what the store has, keeps
/// the rest as it is, and hands on the block that follows if it is there.
pub proof fn lemma_what_a_store_update_does<B>(state: BufferView<B>, stored: int, n: int)
    requires
        state.settled(),
        state.accepts_store_update(stored),
    ensures
        ({
            let after = state.after_store_update(stored);
            let handed = state.handed_on_store_update(stored);
            &&& after.store_block_number == stored
            &&& after.blocks.contains_key(n) <==> state.blocks.contains_key(n) && stored < n
            &&& after.blocks.contains_key(n) ==> after.blocks[n] == state.blocks[n]
            &&& handed is Some <==> state.blocks.contains_key(stored + 1)
            &&& handed is Some ==> handed == Some(state.blocks[stored + 1])
            &&& after.is_block_scheduled <==> handed is Some
        }),
{
}

/// The underlying store may report the block that it was given, and no other.
pub proof fn lemma_accepted_store_update<B>(state: BufferView<B>, stored: int)
    requires
        stored < u64::MAX,
    ensures
        state.accepts_store_update(stored) <==> {
            &&& state.is_block_scheduled
            &&& stored == state.store_block_number + 1
        },
{
}

/// A buffer finds a block if and only if it holds one of that number.
pub proof fn lemma_what_is_buffered<B>(state: BufferView<B>, n: int)
    ensures
        state.buffered(n) is Some <==> state.blocks.contains_key(n),
        state.buffered(n) matches Some(block) ==> block == state.blocks[n],
{
}

/// A number is missing if and only if it lies in the range, and neither in the underlying store nor
/// in the buffer. A list of the missing numbers holds each of them just once.
pub proof fn lemma_listed_numbers<B>(
    state: BufferView<B>,
    start: int,
    end: int,
    numbers: Seq<BlockNumber>,
    n: u64,
)
    requires
        state.lists_missing(start, end, numbers),
    ensures
        numbers.contains(BlockNumber(n)) <==> {
            &&& start <= n < end
            &&& state.store_block_number < n
            &&& !state.blocks.contains_key(n as int)
        },
        numbers.no_duplicates(),
{
    if state.is_missing(start, end, n as int) {
        let i = choose|i: int| 0 <= i < numbers.len() && (#[trigger] numbers[i])@ == n;
        assert(numbers[i] == BlockNumber(n));
    }
    if numbers.contains(BlockNumber(n)) {
        let i = choose|i: int| 0 <= i < numbers.len() && numbers[i] == BlockNumber(n);
        assert(state.is_missing(start, end, numbers[i]@));
    }
    assert forall|i: int, j: int| 0 <= i < numbers.len() && 0 <= j < numbers.len() && i != j implies
        numbers[i] != numbers[j] by {
        if i < j {
            assert(numbers[i]@ < numbers[j]@);
        } else {
            assert(numbers[j]@ < numbers[i]@);
        }
    }
}

/// The head block is in the buffer, and no block in the buffer comes after it.
pub proof fn lemma_head_is_greatest<B>(state: BufferView<B>, head: int, n: int)
    requires
        state.is_head(head),
        state.blocks.contains_key(n),
    ensures
        state.blocks.contains_key(head),
        n <= head,
{
}

/// The contiguous run holds each number after the underlying store up to its last one, and ends only
/// where a block is not there.
pub proof fn lemma_contiguous_run<B>(state: BufferView<B>, last: int, n: int)
    requires
        state.is_last_contiguous(last),
    ensures
        state.store_block_number <= last,
        state.store_block_number < n <= last ==> state.blocks.contains_key(n),
        !state.blocks.contains_key(last + 1),
{
}

/// A put announces the number of its block if and only if the block is not refused and scheduling
/// goes well.
pub proof fn lemma_what_is_announced<B>(state: BufferView<B>, block: BlockView<B>, scheduled: bool)
    ensures
        state.announced_on_put(block, scheduled) is Some <==> {
            &&& state.store_block_number < block.number
            &&& scheduled
        },
        state.announced_on_put(block, scheduled) matches Some(n) ==> n == block.number,
{
}

/// A new buffered store is settled, and it stays so whatever happens: a block is scheduled exactly
/// when the one that follows the underlying store is buffered. So no block that could be handed on
/// is ever held back.
pub proof fn lemma_always_settled<B>(start: BufferView<B>, history: Seq<Happening<B>>)
    requires
        start.settled(),
        start.accepts_all(history),
    ensures
        start.after_all(history).settled(),
    decreases history.len(),
{
    if history.len() > 0 {
        lemma_always_settled(start, history.drop_last());
    }
}

/// Blocks are handed to the underlying store one by one, in the order of their numbers and without
/// a gap: the first one directly follows the store, each is handed on only after the store has
/// reported the one before it, and at most one is outstanding.
pub proof fn lemma_handed_in_sequence<B>(store_block_number: int, history: Seq<Happening<B>>)
    requires
        0 <= store_block_number <= u64::MAX,
        BufferView::<B>::empty(store_block_number).accepts_all(history),
    ensures
        ({
            let start = BufferView::<B>::empty(store_block_number);
            let end = start.after_all(history);
            let handed = start.all_handed(history);
            let outstanding: int = if end.is_block_scheduled { 1 } else { 0 };
            &&& handed.len() == end.store_block_number - store_block_number + outstanding
            &&& forall|i: int|
                0 <= i < handed.len() ==> (#[trigger] handed[i]).number == store_block_number + 1 + i
        }),
    decreases history.len(),
{
    let start = BufferView::<B>::empty(store_block_number);
    if history.len() > 0 {
        let before = history.drop_last();
        lemma_handed_in_sequence(store_block_number, before);
        lemma_always_settled(start, before);
    }
}

/// A block that is handed to the underlying store directly follows it, stays in the buffer for the
/// time being, and either has just come in or was in the buffer already.
pub proof fn lemma_handed_block<B>(state: BufferView<B>, happening: Happening<B>)
    requires
        state.settled(),
        state.accepts(happening),
        state.handed_on(happening) is Some,
    ensures
        ({
            let handed = state.handed_on(happening)->0;
            let after = state.after(happening);
            &&& !state.is_block_scheduled || happening is StoreUpdate
            &&& after.is_block_scheduled
            &&& handed.number == after.store_block_number + 1
            &&& after.buffered(handed.number) == Some(handed)
            &&& match happening {
                Happening::Put(block) => handed == block,
                Happening::StoreUpdate(_) => state.buffered(handed.number) == Some(handed),
            }
        }),
{
}

/// `block` has come in at some point of `history`.
pub open spec fn came_in<B>(history: Seq<Happening<B>>, block: BlockView<B>) -> bool {
    history.contains(Happening::Put(block))
}

/// A buffered store makes up no blocks: whatever it buffers or hands to the underlying store has
/// come in before.
pub proof fn lemma_only_received_blocks<B>(store_block_number: int, history: Seq<Happening<B>>)
    requires
        0 <= store_block_number <= u64::MAX,
        BufferView::<B>::empty(store_block_number).accepts_all(history),
    ensures
        ({
            let start = BufferView::<B>::empty(store_block_number);
            let end = start.after_all(history);
            let handed = start.all_handed(history);
            &&& forall|n: int| #[trigger]
                end.blocks.contains_key(n) ==> came_in(history, end.blocks[n])
            &&& forall|i: int| 0 <= i < handed.len() ==> came_in(history, #[trigger] handed[i])
        }),
    decreases history.len(),
{
    let start = BufferView::<B>::empty(store_block_number);
    if history.len() > 0 {
        let before = history.drop_last();
        let last = history.last();
        lemma_only_received_blocks(store_block_number, before);
        lemma_always_settled(start, before);
        let state = start.after_all(before);
        assert(history[history.len() - 1] == last);
        assert forall|block: BlockView<B>| #[trigger] came_in(before, block) implies came_in(
            history,
            block,
        ) by {
            let i = choose|i: int| 0 <= i < before.len() && before[i] == Happening::Put(block);
            assert(history[i] == Happening::Put(block));
        }
        let end = start.after_all(history);
        assert forall|n: int| #[trigger] end.blocks.contains_key(n) implies came_in(
            history,
            end.blocks[n],
        ) by {
            if end.buffered(n) == state.buffered(n) {
                assert(state.blocks.contains_key(n));
            } else {
                lemma_contents_change_only_so(state, last, n);
            }
        }
        if state.handed_on(last) is Some {
            lemma_handed_block(state, last);
            let block = state.handed_on(last)->0;
            assert(end.blocks.contains_key(block.number));
            assert(came_in(history, block));
        }
        let handed_before = start.all_handed(before);
        let handed = start.all_handed(history);
        assert forall|i: int| 0 <= i < handed.len() implies came_in(history, #[trigger] handed[i]) by {
            if i < handed_before.len() {
                assert(handed[i] == handed_before[i]);
            }
        }
    }
}

/// What was put can be read back: the block stays in the buffer, unchanged, until the underlying
/// store reports it or another block comes in under the same number.
pub proof fn lemma_put_block_stays<B>(start: BufferView<B>, block: BlockView<B>, history: Seq<Happening<B>>)
    requires
        start.settled(),
        start.accepts(Happening::Put(block)),
        start.store_block_number < block.number,
        start.after_put(block).accepts_all(history),
        forall|i: int|
            0 <= i < history.len() ==> ((#[trigger] history[i]) matches Happening::Put(other)
                ==> other.number != block.number),
    ensures
        ({
            let end = start.after_put(block).after_all(history);
            end.store_block_number < block.number ==> end.buffered(block.number) == Some(block)
        }),
    decreases history.len(),
{
    if history.len() > 0 {
        let before = history.drop_last();
        assert forall|i: int| 0 <= i < before.len() implies ((#[trigger] before[i]) matches Happening::Put(
            other,
        ) ==> other.number != block.number) by {
            assert(before[i] == history[i]);
        }
        lemma_put_block_stays(start, block, before);
        assert(history.last() == history[history.len() - 1]);
    }
}

/// Blocks appear in no other way than by coming in, and disappear in no other way than by the
/// underlying store reporting them.
pub proof fn lemma_contents_change_only_so<B>(state: BufferView<B>, happening: Happening<B>, n: int)
    requires
        state.settled(),
        state.accepts(happening),
        state.after(happening).buffered(n) != state.buffered(n),
    ensures
        match happening {
            Happening::Put(block) => {
                &&& n == block.number
                &&& state.after(happening).buffered(n) == Some(block)
            },
            Happening::StoreUpdate(stored) => {
                &&& n == stored
                &&& state.buffered(n) is Some
                &&& state.after(happening).buffered(n) is None
            },
        },
{
}

/// Two blocks of different numbers may come in in either order: the buffer ends up the same.
pub proof fn lemma_put_order_is_irrelevant<B>(state: BufferView<B>, a: BlockView<B>, b: BlockView<B>)
    requires
        state.settled(),
        a.number != b.number,
    ensures
        state.after_put(a).after_put(b) == state.after_put(b).after_put(a),
{
    assert(state.after_put(a).after_put(b).blocks =~= state.after_put(b).after_put(a).blocks);
}

/// Putting a block again changes nothing.
pub proof fn lemma_put_is_idempotent<B>(state: BufferView<B>, block: BlockView<B>)
    requires
        state.settled(),
    ensures
        state.after_put(block).after_put(block) == state.after_put(block),
        state.after_put(block).handed_on_put(block) is None,
{
    assert(state.after_put(block).after_put(block).blocks =~= state.after_put(block).blocks);
}

/// Whether a put ends well does not depend on what happens later.
proof fn lemma_put_ends_well_in_prefix<B>(
    start: BufferView<B>,
    history: Seq<Happening<B>>,
    scheduled: Seq<bool>,
    i: int,
)
    requires
        scheduled.len() == history.len(),
        i < history.len() - 1,
    ensures
        start.put_ends_well(history, scheduled, i) == start.put_ends_well(
            history.drop_last(),
            scheduled.drop_last(),
            i,
        ),
{
    if 0 <= i {
        assert(history.drop_last().take(i) =~= history.take(i));
    }
}

/// Store updates, refused blocks and blocks whose scheduling fails leave the number that
/// subscribers see as it is.
pub proof fn lemma_announced_moves_by_puts_only<B>(
    start: BufferView<B>,
    history: Seq<Happening<B>>,
    scheduled: Seq<bool>,
)
    requires
        scheduled.len() == history.len(),
        history.len() > 0,
        !start.put_ends_well(history, scheduled, history.len() - 1),
    ensures
        start.announced(history, scheduled) == start.announced(
            history.drop_last(),
            scheduled.drop_last(),
        ),
{
    assert(history.take(history.len() - 1) =~= history.drop_last());
}

/// As long as no put has ended well, subscribers see the number that the underlying store had when
/// the buffered store was made.
pub proof fn lemma_announced_at_first<B>(
    store_block_number: int,
    history: Seq<Happening<B>>,
    scheduled: Seq<bool>,
)
    requires
        scheduled.len() == history.len(),
        forall|i: int|
            !#[trigger] BufferView::<B>::empty(store_block_number).put_ends_well(
                history,
                scheduled,
                i,
            ),
    ensures
        BufferView::<B>::empty(store_block_number).announced(history, scheduled)
            == store_block_number,
    decreases history.len(),
{
    let start = BufferView::<B>::empty(store_block_number);
    if history.len() > 0 {
        let before = history.drop_last();
        assert forall|i: int| !#[trigger] start.put_ends_well(before, scheduled.drop_last(), i) by {
            if i < before.len() {
                lemma_put_ends_well_in_prefix(start, history, scheduled, i);
                assert(!start.put_ends_well(history, scheduled, i));
            }
        }
        lemma_announced_at_first(store_block_number, before, scheduled.drop_last());
        assert(!start.put_ends_well(history, scheduled, history.len() - 1));
        lemma_announced_moves_by_puts_only(start, history, scheduled);
    }
}

/// Once a put has ended well, subscribers see the number of the last one that did, be it the
/// greatest number or not.
pub proof fn lemma_announced_is_last_put<B>(
    store_block_number: int,
    history: Seq<Happening<B>>,
    scheduled: Seq<bool>,
    last: int,
)
    requires
        scheduled.len() == history.len(),
        BufferView::<B>::empty(store_block_number).put_ends_well(history, scheduled, last),
        forall|i: int|
            last < i ==> !#[trigger] BufferView::<B>::empty(store_block_number).put_ends_well(
                history,
                scheduled,
                i,
            ),
    ensures
        history[last] matches Happening::Put(block) && BufferView::<B>::empty(
            store_block_number,
        ).announced(history, scheduled) == block.number,
    decreases history.len(),
{
    let start = BufferView::<B>::empty(store_block_number);
    let before = history.drop_last();
    if last == before.len() {
        assert(history.take(last) =~= before);
    } else {
        assert forall|i: int| last < i implies !#[trigger] start.put_ends_well(
            before,
            scheduled.drop_last(),
            i,
        ) by {
            if i < before.len() {
                lemma_put_ends_well_in_prefix(start, history, scheduled, i);
                assert(!start.put_ends_well(history, scheduled, i));
            }
        }
        lemma_put_ends_well_in_prefix(start, history, scheduled, last);
        lemma_announced_is_last_put(store_block_number, before, scheduled.drop_last(), last);
        assert(!start.put_ends_well(history, scheduled, history.len() - 1));
        lemma_announced_moves_by_puts_only(start, history, scheduled);
    }
}

/// There is just one last contiguous block number.
pub proof fn lemma_last_contiguous_is_unique<B>(state: BufferView<B>, m: int, n: int)
    requires
        state.is_last_contiguous(m),
        state.is_last_contiguous(n),
    ensures
        m == n,
{
    if m < n {
        assert(state.blocks.contains_key(m + 1));
    } else if n < m {
        assert(state.blocks.contains_key(n + 1));
    }
}

/// The last contiguous block number never goes back.
pub proof fn lemma_last_contiguous_never_goes_back<B>(
    state: BufferView<B>,
    happening: Happening<B>,
    m: int,
    n: int,
)
    requires
        state.settled(),
        state.accepts(happening),
        state.is_last_contiguous(m),
        state.after(happening).is_last_contiguous(n),
    ensures
        m <= n,
        happening is StoreUpdate ==> m == n,
{
    let after = state.after(happening);
    if n < m {
        if n >= state.store_block_number {
            assert(state.blocks.contains_key(n + 1));
        } else {
            assert(false);
        }
        assert(after.blocks.contains_key(n + 1));
    }
    if m < n && happening is StoreUpdate {
        assert(after.store_block_number <= m) by {
            if m == state.store_block_number {
                assert(state.blocks.contains_key(m + 1));
            }
        }
        assert(after.blocks.contains_key(m + 1));
    }
}

/// A block that comes in is no longer missing, and a store update makes nothing missing that was
/// not, nor the other way round.
pub proof fn lemma_what_is_missing<B>(
    state: BufferView<B>,
    happening: Happening<B>,
    start: int,
    end: int,
    n: int,
)
    requires
        state.settled(),
        state.accepts(happening),
    ensures
        state.after(happening).is_missing(start, end, n) <==> {
            &&& state.is_missing(start, end, n)
            &&& !(happening matches Happening::Put(block) && block.number == n)
        },
{
}

/// Nothing is missing up to the last contiguous block number, and the number after it is.
pub proof fn lemma_nothing_missing_in_contiguous_run<B>(
    state: BufferView<B>,
    last: int,
    start: int,
    end: int,
    n: int,
)
    requires
        state.wf(),
        state.is_last_contiguous(last),
    ensures
        n <= last ==> !state.is_missing(start, end, n),
        n == last + 1 && start <= n < end ==> state.is_missing(start, end, n),
{
}

/// The head block is not before the last contiguous one. They are the same if and only if no number
/// up to the head block is missing.
pub proof fn lemma_head_and_last_contiguous<B>(state: BufferView<B>, head: int, last: int)
    requires
        state.wf(),
        state.is_head(head),
        state.is_last_contiguous(last),
    ensures
        last <= head,
        last == head <==> forall|n: int| !#[trigger] state.is_missing(0, head, n),
{
    if last > head {
        assert(state.blocks.contains_key(last));
    }
    if last < head {
        assert(last + 1 != head) by {
            assert(!state.blocks.contains_key(last + 1));
        }
        assert(state.is_missing(0, head, last + 1));
    }
    if last == head {
        assert forall|n: int| !#[trigger] state.is_missing(0, head, n) by {
            lemma_nothing_missing_in_contiguous_run(state, last, 0, head, n);
        }
    }
}

/// The reports of the underlying store that take it from `from` to `to`.
pub open spec fn store_updates<B>(from: int, to: int) -> Seq<Happening<B>> {
    Seq::new((to - from) as nat, |i: int| Happening::StoreUpdate(from + 1 + i))
}

/// The buffer drains: if the underlying store keeps adding what it is given, it reaches the last
/// contiguous block. The first of these blocks it has been given already, and it is given the
/// others on the way, one for each that it adds.
pub proof fn lemma_buffer_drains<B>(state: BufferView<B>, last: int, to: int)
    requires
        state.settled(),
        state.is_last_contiguous(last),
        last < u64::MAX,
        state.store_block_number <= to <= last,
    ensures
        ({
            let history = store_updates(state.store_block_number, to);
            let end = state.after_all(history);
            let handed = state.all_handed(history);
            &&& state.accepts_all(history)
            &&& end.settled()
            &&& end.store_block_number == to
            &&& end.is_last_contiguous(last)
            &&& forall|n: int| to < n ==> end.buffered(n) == #[trigger] state.buffered(n)
            &&& forall|i: int|
                0 <= i < handed.len() ==> state.buffered(state.store_block_number + 2 + i) == Some(
                    #[trigger] handed[i],
                )
            &&& handed.len() == if to == state.store_block_number {
                0
            } else if to == last {
                to - state.store_block_number - 1
            } else {
                to - state.store_block_number
            }
        }),
    decreases to - state.store_block_number,
{
    let history = store_updates(state.store_block_number, to);
    if to > state.store_block_number {
        lemma_buffer_drains(state, last, to - 1);
        let before = store_updates(state.store_block_number, to - 1);
        assert(history.drop_last() =~= before);
        assert(history.last() == Happening::<B>::StoreUpdate(to));
        let reached = state.after_all(before);
        assert(reached.blocks.contains_key(to));
        assert(reached.accepts(history.last()));
        let end = state.after_all(history);
        assert forall|n: int| to < n implies end.buffered(n) == #[trigger] state.buffered(n) by {
            assert(reached.buffered(n) == state.buffered(n));
        }
        if to < last {
            assert(reached.blocks.contains_key(to + 1));
        }
    } else {
        assert(history =~= Seq::empty());
    }
}

} // verus!
