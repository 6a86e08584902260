//! Block numbers and finalized blocks, as the buffer sees them.
use std::sync::Arc;

use vstd::prelude::*;

verus! {

/// Number that follows `number`.
///
/// Calls `zksync_consensus_roles::validator::BlockNumber::next`, which adds one with
/// `checked_add` and unwraps: the result is the successor, and the largest number is left out
/// because the call panics on it.
#[verifier::external_body]
fn successor(number: u64) -> (following: u64)
    requires
        number < u64::MAX,
    ensures
        following == number + 1,
{
    zksync_consensus_roles::validator::BlockNumber(number).next().0
}

/// Sequential number of a block.
#[derive(Clone, Copy, Debug, PartialEq, Eq, Structural)]
pub struct BlockNumber(pub u64);

impl View for BlockNumber {
    type V = int;

    open spec fn view(&self) -> int {
        self.0 as int
    }
}

impl BlockNumber {
    /// Returns the number of the block right after this one.
    pub fn next(self) -> (following: BlockNumber)
        requires
            self@ < u64::MAX,
        ensures
            following@ == self@ + 1,
            following.0 == self.0 + 1,
    {
        BlockNumber(successor(self.0))
    }
}

/// The part of a block header that decides where the block goes.
#[derive(Clone, Copy, Debug, PartialEq, Eq, Structural)]
pub struct BlockHeader {
    /// Number of the block.
    pub number: BlockNumber,
}

/// A finalized block.
///
/// Buffering looks at the header only; the block itself is carried along, and shared by the copies
/// that are made on the way.
#[derive(Debug)]
pub struct FinalBlock<B> {
    /// Header of the block.
    pub header: BlockHeader,
    /// The whole block.
    pub block: Arc<B>,
}

/// What a [`FinalBlock`] is: a number and a block.
pub struct BlockView<B> {
    pub number: int,
    pub block: B,
}

impl<B> View for FinalBlock<B> {
    type V = BlockView<B>;

    open spec fn view(&self) -> BlockView<B> {
        BlockView { number: self.header.number@, block: *self.block }
    }
}

/// View of a block that may be absent.
pub open spec fn option_view<B>(block: Option<FinalBlock<B>>) -> Option<BlockView<B>> {
    match block {
        Some(block) => Some(block@),
        None => None,
    }
}

/// The view of a block number is the number itself, so that different numbers look different.
pub proof fn lemma_view_of_number(a: BlockNumber, b: BlockNumber)
    ensures
        a@ == a.0,
        a@ == b@ <==> a.0 == b.0,
        a@ < b@ <==> a.0 < b.0,
{
}

/// The view of a block shows its number and the block that it carries, and nothing else.
pub proof fn lemma_view_of_block<B>(a: FinalBlock<B>, b: FinalBlock<B>)
    ensures
        a@.number == a.header.number.0,
        a@.block == *a.block,
        a@ == b@ <==> a.header.number.0 == b.header.number.0 && *a.block == *b.block,
{
}

/// The view of an absent block is absent, and that of a block is the block's.
pub proof fn lemma_view_of_option<B>(block: Option<FinalBlock<B>>)
    ensures
        block is None ==> option_view(block) is None,
        block matches Some(found) ==> option_view(block) == Some(found@),
{
}

impl<B> Clone for FinalBlock<B> {
    fn clone(&self) -> (copy: FinalBlock<B>)
        ensures
            copy@ == self@,
            copy.header == self.header,
            copy.block == self.block,
    {
        FinalBlock { header: self.header, block: self.block.clone() }
    }
}

/// No block lies between a number and the next one.
pub proof fn lemma_next_number_follows(number: BlockNumber, following: BlockNumber, other: BlockNumber)
    requires
        call_ensures(BlockNumber::next, (number,), following),
    ensures
        number.0 < following.0,
        number.0 < other.0 <==> following.0 <= other.0,
{
}

} // verus!
