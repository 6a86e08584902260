use std::sync::Arc;

use node_core::block::{BlockHeader, BlockNumber, FinalBlock};
use node_core::buffer::BlockBuffer;
use node_core::buffered::{
    BlockLookup, Buffered, BufferedStorageEvent, PendingPut, PendingUpdate, StorageError,
};
use node_core::missing::MissingBlockNumbers;

type Block = FinalBlock<Vec<u8>>;
type Store = Buffered<Vec<u8>>;

fn block(number: u64) -> Block {
    marked_block(number, 0)
}

fn marked_block(number: u64, mark: u8) -> Block {
    FinalBlock {
        header: BlockHeader {
            number: BlockNumber(number),
        },
        block: Arc::new(vec![number as u8, mark]),
    }
}

fn number_of(block: &Option<Block>) -> Option<u64> {
    block.as_ref().map(|block| block.header.number.0)
}

fn numbers(list: &[u64]) -> Vec<BlockNumber> {
    list.iter().map(|&number| BlockNumber(number)).collect()
}

fn range(start: u64, end: u64) -> std::ops::Range<BlockNumber> {
    BlockNumber(start)..BlockNumber(end)
}

fn put(store: &mut Store, number: u64) -> Option<u64> {
    let put = store.put_block(block(number)).unwrap();
    assert_eq!(put.block_number, BlockNumber(number));
    number_of(&put.to_schedule)
}

fn update(store: &mut Store, number: u64) -> Option<u64> {
    let update = store.listen_to_updates(BlockNumber(number));
    assert_eq!(update.store_block_number, BlockNumber(number));
    number_of(&update.to_schedule)
}

#[test]
fn next_number_is_the_successor() {
    assert_eq!(BlockNumber(0).next(), BlockNumber(1));
    assert_eq!(BlockNumber(41).next(), BlockNumber(42));
    assert_eq!(BlockNumber(u64::MAX - 1).next(), BlockNumber(u64::MAX));
}

#[test]
fn cloned_block_is_the_same() {
    let original = marked_block(7, 3);
    let copy = original.clone();
    assert_eq!(copy.header.number, BlockNumber(7));
    assert_eq!(*copy.block, vec![7, 3]);
    assert_eq!(*original.block, vec![7, 3]);
}

#[test]
fn new_buffer_is_empty() {
    let buffer = BlockBuffer::<Vec<u8>>::new(BlockNumber(5));
    assert_eq!(buffer.len(), 0);
    assert_eq!(buffer.store_block_number(), BlockNumber(5));
    assert!(!buffer.is_block_scheduled());
    assert!(buffer.head_block().is_none());
    assert_eq!(buffer.last_contiguous_block_number(), BlockNumber(5));
    assert_eq!(buffer.missing_block_numbers(range(0, 8)), numbers(&[6, 7]));
}

#[test]
fn buffer_hands_out_the_next_block_once() {
    let mut buffer = BlockBuffer::<Vec<u8>>::new(BlockNumber(0));
    assert!(buffer.next_block_for_store().is_none());
    assert!(!buffer.is_block_scheduled());
    buffer.put_block(block(2));
    assert!(buffer.next_block_for_store().is_none());
    assert!(!buffer.is_block_scheduled());
    buffer.put_block(block(1));
    assert_eq!(number_of(&buffer.next_block_for_store()), Some(1));
    assert!(buffer.is_block_scheduled());
    assert!(buffer.next_block_for_store().is_none());
    assert!(buffer.is_block_scheduled());
    buffer.set_store_block(BlockNumber(1));
    assert!(!buffer.is_block_scheduled());
    assert_eq!(buffer.store_block_number(), BlockNumber(1));
    assert_eq!(buffer.len(), 1);
    assert!(buffer.block(BlockNumber(1)).is_none());
    assert_eq!(number_of(&buffer.next_block_for_store()), Some(2));
}

#[test]
fn head_block_is_the_one_with_the_greatest_number() {
    let mut buffer = BlockBuffer::<Vec<u8>>::new(BlockNumber(0));
    for number in [4, 9, 2] {
        buffer.put_block(block(number));
    }
    assert_eq!(number_of(&buffer.head_block()), Some(9));
    assert_eq!(*buffer.head_block().unwrap().block, vec![9, 0]);
}

#[test]
fn last_contiguous_number_stops_at_the_first_gap() {
    let mut buffer = BlockBuffer::<Vec<u8>>::new(BlockNumber(10));
    for number in [12, 13, 15] {
        buffer.put_block(block(number));
    }
    assert_eq!(buffer.last_contiguous_block_number(), BlockNumber(10));
    buffer.put_block(block(11));
    assert_eq!(buffer.last_contiguous_block_number(), BlockNumber(13));
    buffer.put_block(block(14));
    assert_eq!(buffer.last_contiguous_block_number(), BlockNumber(15));
}

#[test]
fn last_contiguous_number_may_be_the_greatest_number() {
    let mut buffer = BlockBuffer::<Vec<u8>>::new(BlockNumber(u64::MAX - 1));
    buffer.put_block(block(u64::MAX));
    assert_eq!(buffer.last_contiguous_block_number(), BlockNumber(u64::MAX));
    let full = BlockBuffer::<Vec<u8>>::new(BlockNumber(u64::MAX));
    assert_eq!(full.last_contiguous_block_number(), BlockNumber(u64::MAX));
}

#[test]
fn missing_numbers_are_clamped_to_the_store() {
    let mut buffer = BlockBuffer::<Vec<u8>>::new(BlockNumber(3));
    for number in [5, 6, 9] {
        buffer.put_block(block(number));
    }
    assert_eq!(buffer.missing_block_numbers(range(0, 11)), numbers(&[4, 7, 8, 10]));
    assert_eq!(buffer.missing_block_numbers(range(6, 9)), numbers(&[7, 8]));
    assert_eq!(buffer.missing_block_numbers(range(5, 7)), numbers(&[]));
    assert_eq!(buffer.missing_block_numbers(range(0, 4)), numbers(&[]));
    assert_eq!(buffer.missing_block_numbers(range(9, 2)), numbers(&[]));
    assert_eq!(buffer.missing_block_numbers(range(8, 8)), numbers(&[]));
}

#[test]
fn missing_numbers_are_yielded_one_by_one() {
    let mut missing = MissingBlockNumbers::new(range(1, 6), numbers(&[1, 2, 4]));
    assert_eq!(missing.next(), Some(BlockNumber(3)));
    assert_eq!(missing.next(), Some(BlockNumber(5)));
    assert_eq!(missing.next(), None);
    assert_eq!(missing.next(), None);
}

#[test]
fn missing_numbers_of_a_covered_range() {
    assert_eq!(MissingBlockNumbers::new(range(1, 3), numbers(&[1, 2])).collect(), numbers(&[]));
    assert_eq!(MissingBlockNumbers::new(range(1, 3), numbers(&[])).collect(), numbers(&[1, 2]));
    assert_eq!(MissingBlockNumbers::new(range(3, 1), numbers(&[])).collect(), numbers(&[]));
}

#[test]
fn new_store_has_an_empty_buffer() {
    let store = Store::new(BlockNumber(3));
    assert_eq!(store.buffer_len(), 0);
    assert_eq!(store.store_block_number(), BlockNumber(3));
    assert!(!store.is_block_scheduled());
    assert!(store.head_block().is_none());
    assert_eq!(store.last_contiguous_block_number(), BlockNumber(3));
}

#[test]
fn blocks_in_order_are_handed_on_one_by_one() {
    let mut store = Store::new(BlockNumber(0));
    assert_eq!(put(&mut store, 1), Some(1));
    assert_eq!(put(&mut store, 2), None);
    assert_eq!(put(&mut store, 3), None);
    assert_eq!(store.buffer_len(), 3);
    assert_eq!(update(&mut store, 1), Some(2));
    assert_eq!(store.buffer_len(), 2);
    assert_eq!(update(&mut store, 2), Some(3));
    assert_eq!(update(&mut store, 3), None);
    assert_eq!(store.buffer_len(), 0);
    assert!(!store.is_block_scheduled());
}

#[test]
fn blocks_in_reverse_order_are_handed_on_in_sequence() {
    let mut store = Store::new(BlockNumber(0));
    for number in [5, 4, 3, 2] {
        assert_eq!(put(&mut store, number), None);
        assert!(!store.is_block_scheduled());
        assert_eq!(store.last_contiguous_block_number(), BlockNumber(0));
    }
    let mut handed = vec![put(&mut store, 1).unwrap()];
    assert_eq!(store.last_contiguous_block_number(), BlockNumber(5));
    for number in 1..5 {
        handed.push(update(&mut store, number).unwrap());
        assert_eq!(store.last_contiguous_block_number(), BlockNumber(5));
    }
    assert_eq!(handed, vec![1, 2, 3, 4, 5]);
    assert_eq!(update(&mut store, 5), None);
    assert_eq!(store.store_block_number(), BlockNumber(5));
}

#[test]
fn blocks_of_two_orders_end_up_the_same() {
    let mut first = Store::new(BlockNumber(0));
    let mut second = Store::new(BlockNumber(0));
    put(&mut first, 1);
    put(&mut first, 4);
    put(&mut second, 4);
    put(&mut second, 1);
    assert_eq!(first.buffer_len(), second.buffer_len());
    assert_eq!(first.is_block_scheduled(), second.is_block_scheduled());
    assert_eq!(
        first.missing_block_numbers(range(0, 6)),
        second.missing_block_numbers(range(0, 6))
    );
}

#[test]
fn put_block_can_be_read_back_until_it_is_stored() {
    let mut store = Store::new(BlockNumber(0));
    put(&mut store, 1);
    put(&mut store, 3);
    match store.block(BlockNumber(3)) {
        BlockLookup::InMemory(Some(found)) => assert_eq!(*found.block, vec![3, 0]),
        other => panic!("unexpected lookup: {:?}", other),
    }
    assert!(matches!(store.block(BlockNumber(2)), BlockLookup::InMemory(None)));
    assert!(matches!(store.block(BlockNumber(0)), BlockLookup::Persisted));
    update(&mut store, 1);
    assert!(matches!(store.block(BlockNumber(1)), BlockLookup::Persisted));
    assert!(matches!(store.block(BlockNumber(3)), BlockLookup::InMemory(Some(_))));
}

#[test]
fn later_block_replaces_an_earlier_one_of_the_same_number() {
    let mut store = Store::new(BlockNumber(0));
    store.put_block(marked_block(2, 1)).unwrap();
    store.put_block(marked_block(2, 2)).unwrap();
    assert_eq!(store.buffer_len(), 1);
    match store.block(BlockNumber(2)) {
        BlockLookup::InMemory(Some(found)) => assert_eq!(*found.block, vec![2, 2]),
        other => panic!("unexpected lookup: {:?}", other),
    }
}

#[test]
fn scheduled_block_is_not_handed_on_again() {
    let mut store = Store::new(BlockNumber(0));
    assert_eq!(put(&mut store, 1), Some(1));
    assert_eq!(put(&mut store, 1), None);
    assert!(store.is_block_scheduled());
}

#[test]
fn stored_block_cannot_be_replaced() {
    let mut store = Store::new(BlockNumber(1204));
    for number in [0, 7, 1204] {
        match store.put_block(block(number)) {
            Err(StorageError::Database(message)) => assert_eq!(
                message,
                format!(
                    "Cannot replace a block #{} since it is already present in the underlying storage",
                    number
                )
            ),
            other => panic!("unexpected result: {:?}", other),
        }
    }
    assert_eq!(store.buffer_len(), 0);
    assert_eq!(put(&mut store, 1205), Some(1205));
}

#[test]
fn message_shows_the_greatest_number_in_full() {
    let mut store = Store::new(BlockNumber(u64::MAX));
    match store.put_block(block(u64::MAX)) {
        Err(StorageError::Database(message)) => assert_eq!(
            message,
            "Cannot replace a block #18446744073709551615 since it is already present in the underlying storage"
        ),
        other => panic!("unexpected result: {:?}", other),
    }
}

#[test]
fn put_announces_the_block_unless_scheduling_fails() {
    let put = PendingPut {
        to_schedule: Some(block(1)),
        block_number: BlockNumber(4),
    };
    let scheduled: Result<(), &str> = Ok(());
    assert_eq!(put.finish(scheduled).unwrap(), BlockNumber(4));
    let put = PendingPut {
        to_schedule: Some(block(1)),
        block_number: BlockNumber(4),
    };
    assert_eq!(put.finish(Err("canceled")), Err("canceled"));
}

/// Puts a block, and announces its number unless the block is refused or scheduling fails.
fn put_and_announce(store: &mut Store, announced: &mut BlockNumber, number: u64, scheduled: bool) {
    let scheduled = if scheduled { Ok(()) } else { Err("canceled") };
    if let Ok(put) = store.put_block(block(number)) {
        if let Ok(number) = put.finish(scheduled) {
            *announced = number;
        }
    }
}

#[test]
fn subscribers_see_the_last_put_that_ended_well() {
    let mut store = Store::new(BlockNumber(3));
    let mut announced = store.store_block_number();
    // Refused, and failed: the number of the underlying store is still seen.
    put_and_announce(&mut store, &mut announced, 2, true);
    assert_eq!(announced, BlockNumber(3));
    put_and_announce(&mut store, &mut announced, 4, false);
    assert_eq!(announced, BlockNumber(3));
    put_and_announce(&mut store, &mut announced, 7, true);
    assert_eq!(announced, BlockNumber(7));
    // The last number, not the greatest one.
    put_and_announce(&mut store, &mut announced, 5, true);
    assert_eq!(announced, BlockNumber(5));
    assert_eq!(update(&mut store, 4), Some(5));
    assert_eq!(announced, BlockNumber(5));
    put_and_announce(&mut store, &mut announced, 4, true);
    assert_eq!(announced, BlockNumber(5));
    put_and_announce(&mut store, &mut announced, 8, false);
    assert_eq!(announced, BlockNumber(5));
}

#[test]
fn copies_share_the_block() {
    let mut store = Store::new(BlockNumber(0));
    let original = block(1);
    let carried = original.block.clone();
    let put = store.put_block(original).unwrap();
    assert!(Arc::ptr_eq(&put.to_schedule.unwrap().block, &carried));
    assert!(Arc::ptr_eq(&store.head_block().unwrap().block, &carried));
}

#[test]
fn update_emits_an_event_unless_scheduling_fails() {
    let update = PendingUpdate::<Vec<u8>> {
        to_schedule: None,
        store_block_number: BlockNumber(6),
    };
    let scheduled: Result<(), &str> = Ok(());
    assert_eq!(
        update.finish(scheduled).unwrap(),
        BufferedStorageEvent::UpdateReceived(BlockNumber(6))
    );
    let update = PendingUpdate {
        to_schedule: Some(block(7)),
        store_block_number: BlockNumber(6),
    };
    assert_eq!(update.finish(Err("full")), Err("full"));
}

#[test]
fn head_block_and_missing_numbers_agree() {
    let mut store = Store::new(BlockNumber(0));
    for number in [1, 2, 4] {
        put(&mut store, number);
    }
    assert_eq!(number_of(&store.head_block()), Some(4));
    assert_eq!(store.last_contiguous_block_number(), BlockNumber(2));
    assert_eq!(store.missing_block_numbers(range(0, 4)), numbers(&[3]));
    put(&mut store, 3);
    assert_eq!(store.last_contiguous_block_number(), BlockNumber(4));
    assert_eq!(store.missing_block_numbers(range(0, 4)), numbers(&[]));
}

#[test]
fn store_update_leaves_missing_numbers_as_they_are() {
    let mut store = Store::new(BlockNumber(0));
    for number in [1, 2, 5] {
        put(&mut store, number);
    }
    let before = store.missing_block_numbers(range(0, 8));
    assert_eq!(before, numbers(&[3, 4, 6, 7]));
    update(&mut store, 1);
    assert_eq!(store.missing_block_numbers(range(0, 8)), before);
}
