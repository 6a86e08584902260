//! Enumeration of the block numbers that a range lacks.
use std::ops::Range;

use vstd::prelude::*;

use crate::block::BlockNumber;

verus! {

/// Yields, in increasing order, the numbers of a range that are not among a list of existing
/// numbers.
#[derive(Debug)]
pub struct MissingBlockNumbers {
    start: BlockNumber,
    end: BlockNumber,
    existing_numbers: Vec<BlockNumber>,
    position: usize,
}

impl MissingBlockNumbers {
    /// `n` is still to be yielded.
    pub closed spec fn missing(self, n: int) -> bool {
        &&& self.start@ <= n < self.end@
        &&& forall|i: int|
            self.position <= i < self.existing_numbers@.len()
                ==> (#[trigger] self.existing_numbers@[i])@ != n
    }

    /// The existing numbers that are left increase and do not lie before the range that is left.
    pub closed spec fn wf(self) -> bool {
        &&& self.position <= self.existing_numbers@.len()
        &&& forall|i: int, j: int|
            0 <= i < j < self.existing_numbers@.len() ==> (#[trigger] self.existing_numbers@[i])@
                < (#[trigger] self.existing_numbers@[j])@
        &&& forall|i: int|
            self.position <= i < self.existing_numbers@.len() ==> self.start@ <= (
            #[trigger] self.existing_numbers@[i])@
    }

    /// How many numbers of the range have not been passed.
    pub closed spec fn numbers_left(self) -> nat {
        if self.start@ < self.end@ {
            (self.end@ - self.start@) as nat
        } else {
            0
        }
    }

    /// Starts the enumeration of the numbers in `range` that are not among `existing_numbers`,
    /// which must increase and not lie before the range.
    pub fn new(
        range: Range<BlockNumber>,
        existing_numbers: Vec<BlockNumber>,
    ) -> (numbers: MissingBlockNumbers)
        requires
            forall|i: int, j: int|
                0 <= i < j < existing_numbers@.len() ==> (#[trigger] existing_numbers@[i])@ < (
                #[trigger] existing_numbers@[j])@,
            forall|i: int|
                0 <= i < existing_numbers@.len() ==> range.start@ <= (
                #[trigger] existing_numbers@[i])@,
        ensures
            numbers.wf(),
            forall|n: int| #[trigger]
                numbers.missing(n) <==> range.start@ <= n < range.end@ && forall|i: int|
                    0 <= i < existing_numbers@.len() ==> (#[trigger] existing_numbers@[i])@ != n,
            forall|n: u64| #[trigger]
                numbers.missing(n as int) <==> range.start.0 <= n < range.end.0
                    && !existing_numbers@.contains(BlockNumber(n)),
    {
        let numbers = MissingBlockNumbers {
            start: range.start,
            end: range.end,
            existing_numbers,
            position: 0,
        };
        assert(numbers.existing_numbers@ == existing_numbers@);
        assert forall|n: u64| #[trigger]
            numbers.missing(n as int) <==> range.start.0 <= n < range.end.0
                && !existing_numbers@.contains(BlockNumber(n)) by {
            if !existing_numbers@.contains(BlockNumber(n)) {
                assert forall|i: int| 0 <= i < existing_numbers@.len() implies (
                #[trigger] existing_numbers@[i])@ != n by {
                    assert(existing_numbers@[i] != BlockNumber(n));
                }
            } else {
                let i = choose|i: int|
                    0 <= i < existing_numbers@.len() && existing_numbers@[i] == BlockNumber(n);
                assert(existing_numbers@[i]@ == n);
            }
        }
        numbers
    }

    /// Yields the least missing number.
    pub fn next(&mut self) -> (number: Option<BlockNumber>)
        requires
            old(self).wf(),
        ensures
            final(self).wf(),
            match number {
                Some(number) => {
                    &&& old(self).missing(number@)
                    &&& forall|n: int| #[trigger] old(self).missing(n) ==> number@ <= n
                    &&& forall|n: int| #[trigger]
                        final(self).missing(n) <==> old(self).missing(n) && n != number@
                    &&& final(self).numbers_left() < old(self).numbers_left()
                },
                None => {
                    &&& forall|n: int| !#[trigger] old(self).missing(n)
                    &&& forall|n: int| !#[trigger] final(self).missing(n)
                },
            },
    {
        while self.start.0 < self.end.0 && self.position < self.existing_numbers.len()
            && self.existing_numbers[self.position].0 == self.start.0
            invariant
                self.wf(),
                self.end == old(self).end,
                self.existing_numbers == old(self).existing_numbers,
                self.numbers_left() <= old(self).numbers_left(),
                forall|n: int| #[trigger] old(self).missing(n) <==> self.missing(n),
            decreases self.numbers_left(),
        {
            let ghost before = *self;
            self.start = self.start.next();
            self.position = self.position + 1;
            let ghost after = *self;
            assert(before.existing_numbers@[before.position as int] == before.start);
            assert(after.existing_numbers@ == before.existing_numbers@);
            assert forall|n: int| #[trigger] before.missing(n) <==> after.missing(n) by {
                if before.missing(n) {
                    assert(before.existing_numbers@[before.position as int]@ != n);
                }
            }
        }
        if self.start.0 >= self.end.0 {
            return None;
        }
        let number = self.start;
        let ghost before = *self;
        self.start = self.start.next();
        let ghost after = *self;
        assert(after.existing_numbers@ == before.existing_numbers@);
        assert forall|n: int| #[trigger] before.missing(n) <==> after.missing(n) || n == number@ by {
            if n == number@ && before.position < before.existing_numbers@.len() {
                assert(before.existing_numbers@[before.position as int]@ > n);
            }
        }
        Some(number)
    }

    /// Yields all missing numbers.
    pub fn collect(self) -> (numbers: Vec<BlockNumber>)
        requires
            self.wf(),
        ensures
            forall|i: int, j: int|
                0 <= i < j < numbers@.len() ==> (#[trigger] numbers@[i])@ < (
                #[trigger] numbers@[j])@,
            forall|i: int| 0 <= i < numbers@.len() ==> self.missing((#[trigger] numbers@[i])@),
            forall|n: int| #[trigger]
                self.missing(n) ==> exists|i: int|
                    0 <= i < numbers@.len() && (#[trigger] numbers@[i])@ == n,
            forall|n: u64| #[trigger]
                numbers@.contains(BlockNumber(n)) <==> self.missing(n as int),
    {
        let mut rest = self;
        let mut numbers: Vec<BlockNumber> = Vec::new();
        loop
            invariant
                rest.wf(),
                forall|i: int, j: int|
                    0 <= i < j < numbers@.len() ==> (#[trigger] numbers@[i])@ < (
                    #[trigger] numbers@[j])@,
                forall|i: int| 0 <= i < numbers@.len() ==> self.missing((#[trigger] numbers@[i])@),
                forall|i: int, n: int|
                    0 <= i < numbers@.len() && #[trigger] rest.missing(n) ==> (
                    #[trigger] numbers@[i])@ < n,
                forall|n: int| #[trigger] rest.missing(n) ==> self.missing(n),
                forall|n: int| #[trigger]
                    self.missing(n) ==> rest.missing(n) || exists|i: int|
                        0 <= i < numbers@.len() && (#[trigger] numbers@[i])@ == n,
            decreases rest.numbers_left(),
        {
            let ghost before = rest;
            let ghost listed = numbers@;
            match rest.next() {
                Some(number) => {
                    numbers.push(number);
                    assert forall|n: int| #[trigger]
                        self.missing(n) implies rest.missing(n) || exists|i: int|
                        0 <= i < numbers@.len() && (#[trigger] numbers@[i])@ == n by {
                        if before.missing(n) {
                            assert(numbers@[listed.len() as int]@ == number@);
                        } else {
                            let i = choose|i: int|
                                0 <= i < listed.len() && (#[trigger] listed[i])@ == n;
                            assert(numbers@[i] == listed[i]);
                        }
                    }
                },
                None => {
                    assert forall|n: u64| #[trigger]
                        numbers@.contains(BlockNumber(n)) <==> self.missing(n as int) by {
                        if self.missing(n as int) {
                            let i = choose|i: int|
                                0 <= i < numbers@.len() && (#[trigger] numbers@[i])@ == n as int;
                            assert(numbers@[i] == BlockNumber(n));
                        }
                    }
                    return numbers;
                },
            }
        }
    }
}

/// All numbers of a range are enumerated but the existing ones, each of them once and in increasing
/// order.
pub proof fn lemma_missing_are_all_but_existing(
    range: Range<BlockNumber>,
    existing_numbers: Vec<BlockNumber>,
    enumeration: MissingBlockNumbers,
    numbers: Vec<BlockNumber>,
    n: u64,
)
    requires
        forall|i: int, j: int|
            0 <= i < j < existing_numbers@.len() ==> (#[trigger] existing_numbers@[i])@ < (
            #[trigger] existing_numbers@[j])@,
        forall|i: int|
            0 <= i < existing_numbers@.len() ==> range.start@ <= (#[trigger] existing_numbers@[i])@,
        call_ensures(MissingBlockNumbers::new, (range, existing_numbers), enumeration),
        call_ensures(MissingBlockNumbers::collect, (enumeration,), numbers),
    ensures
        numbers@.contains(BlockNumber(n)) <==> {
            &&& range.start.0 <= n < range.end.0
            &&& !existing_numbers@.contains(BlockNumber(n))
        },
        forall|i: int, j: int|
            0 <= i < j < numbers@.len() ==> (#[trigger] numbers@[i]).0 < (#[trigger] numbers@[j]).0,
{
    assert(numbers@.contains(BlockNumber(n)) <==> enumeration.missing(n as int));
}

} // verus!
