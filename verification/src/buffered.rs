//! Block store with an in-memory buffer for pending blocks.
//!
//! The methods of [`Buffered`] are the parts of the store's work that run while the buffer is
//! locked. Each says in its result what is left to do outside: which block to schedule in the
//! underlying store, or that the underlying store has to be asked.
use std::ops::Range;

use vstd::prelude::*;
use vstd::string::StringExecFns;

use crate::block::{option_view, BlockNumber, FinalBlock};
use crate::buffer::{BlockBuffer, BufferView};
use crate::decimal::{append_decimal, decimal, lemma_number_can_be_told};

verus! {

/// Errors of the buffered store itself.
#[derive(Debug)]
pub enum StorageError {
    /// The store refuses the operation, for the given reason.
    Database(String),
}

/// Where a requested block is to be taken from.
#[derive(Debug)]
pub enum BlockLookup<B> {
    /// The buffer is responsible for the number, and this is what it has.
    InMemory(Option<FinalBlock<B>>),
    /// The underlying store is responsible for the number.
    Persisted,
}

/// Events emitted by [`Buffered`] storage.
#[derive(Clone, Copy, Debug, PartialEq, Eq, Structural)]
pub enum BufferedStorageEvent {
    /// Update was received from the underlying storage.
    UpdateReceived(BlockNumber),
}

/// What is left of putting a block once it is in the buffer.
#[derive(Debug)]
pub struct PendingPut<B> {
    /// The block to schedule in the underlying store.
    pub to_schedule: Option<FinalBlock<B>>,
    /// Number of the block that was put.
    pub block_number: BlockNumber,
}

impl<B> PendingPut<B> {
    /// The number that is announced, given whether scheduling went well.
    pub open spec fn announces(self, scheduled: bool) -> Option<int> {
        if scheduled {
            Some(self.block_number@)
        } else {
            None
        }
    }

    /// Ends the operation, given how scheduling went (`Ok` if there was nothing to schedule).
    /// Returns the block number to announce to subscribers.
    pub fn finish<E>(self, scheduled: Result<(), E>) -> (announced: Result<BlockNumber, E>)
        ensures
            match scheduled {
                Ok(()) => announced == Ok::<BlockNumber, E>(self.block_number),
                Err(err) => announced == Err::<BlockNumber, E>(err),
            },
            self.announces(scheduled is Ok) == match announced {
                Ok(number) => Some(number@),
                Err(_) => None,
            },
    {
        match scheduled {
            Ok(()) => Ok(self.block_number),
            Err(err) => Err(err),
        }
    }
}

/// What is left of a store update once the buffer has taken note of it.
#[derive(Debug)]
pub struct PendingUpdate<B> {
    /// The block to schedule in the underlying store.
    pub to_schedule: Option<FinalBlock<B>>,
    /// Number of the last block in the underlying store.
    pub store_block_number: BlockNumber,
}

impl<B> PendingUpdate<B> {
    /// Ends the handling of the update, given how scheduling went (`Ok` if there was nothing to
    /// schedule). Returns the event to emit.
    pub fn finish<E>(self, scheduled: Result<(), E>) -> (event: Result<BufferedStorageEvent, E>)
        ensures
            match scheduled {
                Ok(()) => event == Ok::<BufferedStorageEvent, E>(
                    BufferedStorageEvent::UpdateReceived(self.store_block_number),
                ),
                Err(err) => event == Err::<BufferedStorageEvent, E>(err),
            },
    {
        match scheduled {
            Ok(()) => Ok(BufferedStorageEvent::UpdateReceived(self.store_block_number)),
            Err(err) => Err(err),
        }
    }
}

/// Text of the error for a block that the underlying store has already.
pub open spec fn already_stored_message(number: nat) -> Seq<char> {
    "Cannot replace a block #"@ + decimal(number)
        + " since it is already present in the underlying storage"@
}

/// State of a block store with a buffer for pending blocks.
#[derive(Debug)]
pub struct Buffered<B> {
    buffer: BlockBuffer<B>,
}

impl<B> View for Buffered<B> {
    type V = BufferView<B>;

    closed spec fn view(&self) -> BufferView<B> {
        self.buffer@
    }
}

impl<B> Buffered<B> {
    /// Creates a new buffered storage over a store whose last block is `store_block_number`. The
    /// buffer is initially empty.
    pub fn new(store_block_number: BlockNumber) -> (buffered: Buffered<B>)
        ensures
            buffered@.settled(),
            buffered@ == BufferView::<B>::empty(store_block_number@),
            buffered@.store_block_number == store_block_number.0,
            !buffered@.is_block_scheduled,
            forall|n: int| !#[trigger] buffered@.blocks.contains_key(n),
    {
        Buffered { buffer: BlockBuffer::new(store_block_number) }
    }

    /// Handles an update of the underlying storage: its last block is `store_block_number` now.
    ///
    /// The underlying store adds nothing but the block that was scheduled, so this number must be
    /// the next one, and a block must have been scheduled.
    pub fn listen_to_updates(&mut self, store_block_number: BlockNumber) -> (update: PendingUpdate<B>)
        requires
            old(self)@.settled(),
            old(self)@.accepts_store_update(store_block_number@),
        ensures
            final(self)@.settled(),
            final(self)@ == old(self)@.after_store_update(store_block_number@),
            option_view(update.to_schedule) == old(self)@.handed_on_store_update(
                store_block_number@,
            ),
            update.store_block_number == store_block_number,
            final(self)@.store_block_number == store_block_number.0,
            forall|n: int| #[trigger]
                final(self)@.blocks.contains_key(n) <==> old(self)@.blocks.contains_key(n)
                    && store_block_number.0 < n,
            forall|n: int| #[trigger]
                final(self)@.blocks.contains_key(n) ==> final(self)@.blocks[n]
                    == old(self)@.blocks[n],
            update.to_schedule is Some <==> old(self)@.blocks.contains_key(
                store_block_number.0 + 1,
            ),
            update.to_schedule matches Some(block) ==> block@
                == old(self)@.blocks[store_block_number.0 + 1],
            final(self)@.is_block_scheduled <==> update.to_schedule is Some,
    {
        self.buffer.set_store_block(store_block_number);
        let to_schedule = self.buffer.next_block_for_store();
        PendingUpdate { to_schedule, store_block_number }
    }

    /// Returns the head block if it is in the buffer. Otherwise it is the head block of the
    /// underlying store.
    pub fn head_block(&self) -> (head: Option<FinalBlock<B>>)
        requires
            self@.settled(),
        ensures
            match head {
                Some(block) => {
                    &&& self@.is_head(block@.number)
                    &&& self@.blocks[block@.number] == block@
                    &&& self@.blocks.contains_key(block.header.number.0 as int)
                    &&& forall|m: int| #[trigger]
                        self@.blocks.contains_key(m) ==> m <= block.header.number.0
                },
                None => self@.blocks =~= Map::empty(),
            },
    {
        self.buffer.head_block()
    }

    /// Returns the last number of the unbroken run of blocks that starts in the underlying store.
    pub fn last_contiguous_block_number(&self) -> (last: BlockNumber)
        requires
            self@.settled(),
        ensures
            self@.is_last_contiguous(last@),
            self@.store_block_number <= last.0,
            forall|m: int|
                self@.store_block_number < m <= last.0 ==> #[trigger] self@.blocks.contains_key(m),
            !self@.blocks.contains_key(last.0 + 1),
    {
        self.buffer.last_contiguous_block_number()
    }

    /// Looks for the block with the given number: numbers beyond the underlying store are looked
    /// up in the buffer, and all others are left to the underlying store.
    pub fn block(&self, number: BlockNumber) -> (lookup: BlockLookup<B>)
        ensures
            match lookup {
                BlockLookup::InMemory(block) => {
                    &&& self@.store_block_number < number@
                    &&& option_view(block) == self@.buffered(number@)
                    &&& block is Some <==> self@.blocks.contains_key(number.0 as int)
                    &&& block matches Some(block) ==> block@ == self@.blocks[number.0 as int]
                },
                BlockLookup::Persisted => number@ <= self@.store_block_number,
            },
            lookup is Persisted <==> number.0 <= self@.store_block_number,
    {
        if number.0 > self.buffer.store_block_number().0 {
            BlockLookup::InMemory(self.buffer.block(number))
        } else {
            BlockLookup::Persisted
        }
    }

    /// Returns, in increasing order, the numbers of `range` that neither the underlying store nor
    /// the buffer has a block for.
    pub fn missing_block_numbers(&self, range: Range<BlockNumber>) -> (numbers: Vec<BlockNumber>)
        requires
            self@.settled(),
            self@.store_block_number < u64::MAX,
        ensures
            self@.lists_missing(range.start@, range.end@, numbers@),
            forall|i: int, j: int|
                0 <= i < j < numbers@.len() ==> (#[trigger] numbers@[i]).0 < (
                #[trigger] numbers@[j]).0,
            forall|i: int|
                0 <= i < numbers@.len() ==> {
                    &&& range.start.0 <= (#[trigger] numbers@[i]).0 < range.end.0
                    &&& self@.store_block_number < numbers@[i].0
                    &&& !self@.blocks.contains_key(numbers@[i].0 as int)
                },
            forall|n: u64|
                {
                    &&& range.start.0 <= n < range.end.0
                    &&& self@.store_block_number < n
                    &&& !self@.blocks.contains_key(n as int)
                } ==> #[trigger] numbers@.contains(BlockNumber(n)),
    {
        self.buffer.missing_block_numbers(range)
    }

    /// Puts a block into the buffer, unless the underlying store has a block of that number.
    pub fn put_block(&mut self, block: FinalBlock<B>) -> (put: Result<PendingPut<B>, StorageError>)
        requires
            old(self)@.settled(),
        ensures
            final(self)@.settled(),
            final(self)@ == old(self)@.after_put(block@),
            match put {
                Ok(put) => {
                    &&& old(self)@.store_block_number < block@.number
                    &&& option_view(put.to_schedule) == old(self)@.handed_on_put(block@)
                    &&& put.block_number@ == block@.number
                    &&& put.block_number == block.header.number
                    &&& final(self)@.store_block_number == old(self)@.store_block_number
                    &&& final(self)@.blocks == old(self)@.blocks.insert(
                        block.header.number.0 as int,
                        block@,
                    )
                    &&& put.to_schedule is Some <==> {
                        &&& !old(self)@.is_block_scheduled
                        &&& block.header.number.0 == old(self)@.store_block_number + 1
                    }
                    &&& put.to_schedule matches Some(scheduled) ==> scheduled@ == block@
                    &&& final(self)@.is_block_scheduled <==> old(self)@.is_block_scheduled
                        || put.to_schedule is Some
                    &&& forall|scheduled: bool| #[trigger]
                        put.announces(scheduled) == old(self)@.announced_on_put(block@, scheduled)
                },
                Err(err) => {
                    &&& block@.number <= old(self)@.store_block_number
                    &&& err matches StorageError::Database(message)
                    &&& message@ == already_stored_message(block@.number as nat)
                    &&& message@ == "Cannot replace a block #"@ + decimal(
                        block.header.number.0 as nat,
                    ) + " since it is already present in the underlying storage"@
                    &&& final(self)@ == old(self)@
                    &&& forall|scheduled: bool|
                        (#[trigger] old(self)@.announced_on_put(block@, scheduled)) is None
                },
            },
            put is Ok <==> old(self)@.store_block_number < block.header.number.0,
    {
        let block_number = block.header.number;
        if block_number.0 <= self.buffer.store_block_number().0 {
            let mut message = String::from_str("Cannot replace a block #");
            append_decimal(&mut message, block_number.0);
            message.append(" since it is already present in the underlying storage");
            return Err(StorageError::Database(message));
        }
        self.buffer.put_block(block);
        let to_schedule = self.buffer.next_block_for_store();
        Ok(PendingPut { to_schedule, block_number })
    }

    /// Returns the number of the last block in the underlying store.
    pub fn store_block_number(&self) -> (number: BlockNumber)
        ensures
            number@ == self@.store_block_number,
    {
        self.buffer.store_block_number()
    }

    /// Whether a block has been scheduled that the underlying store has not reported yet.
    pub fn is_block_scheduled(&self) -> (scheduled: bool)
        ensures
            scheduled == self@.is_block_scheduled,
    {
        self.buffer.is_block_scheduled()
    }

    /// Returns the number of buffered blocks.
    pub fn buffer_len(&self) -> (len: usize)
        ensures
            self@.blocks.dom().finite(),
            len == self@.blocks.dom().len(),
    {
        self.buffer.len()
    }
}

/// The text of a refusal tells which block is refused.
pub proof fn lemma_refusal_tells_the_block(m: nat, n: nat)
    requires
        already_stored_message(m) == already_stored_message(n),
    ensures
        m == n,
{
    lemma_number_can_be_told(
        "Cannot replace a block #"@,
        " since it is already present in the underlying storage"@,
        m,
        n,
    );
}

/// A put ends well if and only if scheduling does, and then announces the number of its block. How
/// scheduling failed is passed on.
pub proof fn lemma_end_of_a_put<B, E>(
    put: PendingPut<B>,
    scheduled: Result<(), E>,
    announced: Result<BlockNumber, E>,
)
    requires
        call_ensures(PendingPut::<B>::finish::<E>, (put, scheduled), announced),
    ensures
        announced is Ok <==> scheduled is Ok,
        announced matches Ok(number) ==> number == put.block_number,
        announced matches Err(err) ==> scheduled == Err::<(), E>(err),
{
}

/// The handling of an update ends well if and only if scheduling does, and then tells what the
/// underlying store has reported. How scheduling failed is passed on.
pub proof fn lemma_end_of_an_update<B, E>(
    update: PendingUpdate<B>,
    scheduled: Result<(), E>,
    event: Result<BufferedStorageEvent, E>,
)
    requires
        call_ensures(PendingUpdate::<B>::finish::<E>, (update, scheduled), event),
    ensures
        event is Ok <==> scheduled is Ok,
        event matches Ok(BufferedStorageEvent::UpdateReceived(number)) ==> number
            == update.store_block_number,
        event matches Err(err) ==> scheduled == Err::<(), E>(err),
{
}

/// What a store shows of itself fits together: the last contiguous number is not before the
/// underlying store, all blocks of the run are found in memory, and the head block is found under
/// its own number.
pub proof fn lemma_what_a_store_shows<B>(
    store: Buffered<B>,
    last: BlockNumber,
    head: Option<FinalBlock<B>>,
    number: BlockNumber,
    lookup: BlockLookup<B>,
)
    requires
        store@.settled(),
        call_ensures(Buffered::<B>::last_contiguous_block_number, (&store,), last),
        call_ensures(Buffered::<B>::head_block, (&store,), head),
        call_ensures(Buffered::<B>::block, (&store, number), lookup),
    ensures
        store@.store_block_number <= last.0,
        lookup is Persisted <==> number.0 <= store@.store_block_number,
        store@.store_block_number < number.0 <= last.0 ==> (lookup matches BlockLookup::InMemory(
            block,
        ) && block is Some),
        number.0 == last.0 + 1 ==> (lookup matches BlockLookup::InMemory(block) && block is None),
        lookup matches BlockLookup::InMemory(Some(block)) ==> {
            &&& block.header.number.0 == number.0
            &&& head matches Some(head) && number.0 <= head.header.number.0
        },
        head matches Some(head) ==> (number.0 == head.header.number.0 ==> (
        lookup matches BlockLookup::InMemory(Some(block)) && block@ == head@)),
{
    if let BlockLookup::InMemory(Some(block)) = lookup {
        assert(store@.blocks.contains_key(number.0 as int));
    }
    if let Some(head) = head {
        assert(store@.blocks.contains_key(head.header.number.0 as int));
    }
}

} // verus!
