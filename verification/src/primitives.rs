//! Plain values that requests, receipts and transactions are made of.
use vstd::prelude::*;

verus! {

/// Number of an L1 batch.
#[derive(Clone, Copy, Debug, PartialEq, Eq, Structural)]
pub struct L1BatchNumber(pub u32);

/// Number of a miniblock.
#[derive(Clone, Copy, Debug, PartialEq, Eq, Structural)]
pub struct MiniblockNumber(pub u32);

/// Identifier of an L2 chain.
#[derive(Clone, Copy, Debug, PartialEq, Eq, Structural)]
pub struct L2ChainId(pub u64);

/// A hash.
#[derive(Clone, Copy, Debug, PartialEq, Eq)]
pub struct H256(pub [u8; 32]);

/// Address of an account.
#[derive(Clone, Copy, Debug, PartialEq, Eq)]
pub struct Address(pub [u8; 20]);

/// The unsigned integers of 256 bits, in words from the least significant to the most significant.
#[derive(Clone, Copy, Debug, PartialEq, Eq)]
pub struct U256(pub [u64; 4]);

impl View for U256 {
    type V = nat;

    open spec fn view(&self) -> nat {
        (self.0[0] + 0x1_0000_0000_0000_0000 * (self.0[1] + 0x1_0000_0000_0000_0000 * (self.0[2]
            + 0x1_0000_0000_0000_0000 * self.0[3]))) as nat
    }
}

impl U256 {
    /// Whether the number is one of 32 bits.
    pub fn fits_u32(&self) -> (fits: bool)
        ensures
            fits == (self@ <= u32::MAX),
            fits == (self.0[0] <= u32::MAX && self.0[1] == 0 && self.0[2] == 0 && self.0[3] == 0),
    {
        self.0[3] == 0 && self.0[2] == 0 && self.0[1] == 0 && self.0[0] <= 0xffff_ffff
    }

    /// Returns the number as one of 32 bits.
    pub fn as_u32(&self) -> (number: u32)
        requires
            self@ <= u32::MAX,
        ensures
            number == self@,
            number == self.0[0],
    {
        self.0[0] as u32
    }
}

/// The words of a number count multiples of the powers of two to the 64th.
pub proof fn lemma_value_of_words(number: U256)
    ensures
        number@ == number.0[0] + 0x1_0000_0000_0000_0000 * number.0[1]
            + 0x1_0000_0000_0000_0000_0000_0000_0000_0000 * number.0[2]
            + 0x1_0000_0000_0000_0000_0000_0000_0000_0000_0000_0000_0000_0000 * number.0[3],
{
}

/// A number that fits into 32 bits keeps its value as a number of 32 bits.
pub proof fn lemma_number_keeps_its_value(number: U256, fits: bool, short: u32)
    requires
        call_ensures(U256::fits_u32, (&number,), fits),
        call_ensures(U256::as_u32, (&number,), short),
        number@ <= u32::MAX,
    ensures
        fits,
        short == number@,
{
}

} // verus!
