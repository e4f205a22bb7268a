use vstd::prelude::*;

use crate::digits::thue_morse;
use crate::provider::ThueMorseProvider;

verus! {

/// An index whose binary digits hold an even number of ones.
pub open spec fn is_evil(n: nat) -> bool {
    thue_morse(n, 2) == 0
}

/// An index whose binary digits hold an odd number of ones.
pub open spec fn is_odious(n: nat) -> bool {
    thue_morse(n, 2) == 1
}

/// Every index is exactly one of evil and odious.
pub proof fn lemma_evil_xor_odious(n: nat)
    ensures
        is_evil(n) != is_odious(n),
{
}

/// `k` is the least index at or after `start` whose base-two value is `wanted`.
pub open spec fn is_first_with_value(start: nat, k: nat, wanted: nat) -> bool {
    &&& start <= k
    &&& thue_morse(k, 2) == wanted
    &&& forall|j: nat| start <= j < k ==> thue_morse(j, 2) != wanted
}

/// No index from `start` up to the largest `usize` has base-two value `wanted`.
pub open spec fn none_with_value_from(start: nat, wanted: nat) -> bool {
    forall|j: nat| start <= j <= usize::MAX ==> thue_morse(j, 2) != wanted
}

/// The forward scan shared by the evil and the odious producers: a base-two
/// provider, a cursor and the terminal flag.
struct IndexScan {
    thue_morse_provider: ThueMorseProvider,
    index: usize,
    is_maximum_reached: bool,
}

impl IndexScan {
    #[verifier::type_invariant]
    spec fn in_base_two(self) -> bool {
        self.thue_morse_provider.base() == 2
    }

    closed spec fn cursor(&self) -> nat {
        self.index as nat
    }

    closed spec fn is_exhausted(&self) -> bool {
        self.is_maximum_reached
    }

    fn new() -> (r: Self)
        ensures
            r.cursor() == 0,
            !r.is_exhausted(),
    {
        IndexScan { thue_morse_provider: ThueMorseProvider::new(2), index: 0, is_maximum_reached: false }
    }

    /// Scans forward from the cursor for the first index whose value is
    /// `wanted` and moves the cursor past it.
    fn next_with_value(&mut self, wanted: u32) -> (r: Option<usize>)
        ensures
            old(self).is_exhausted() ==> r is None && *final(self) == *old(self),
            !old(self).is_exhausted() ==> match r {
                Some(k) => {
                    &&& is_first_with_value(old(self).cursor(), k as nat, wanted as nat)
                    &&& k < usize::MAX ==> final(self).cursor() == k + 1 && !final(self).is_exhausted()
                    &&& k == usize::MAX ==> final(self).cursor() == k && final(self).is_exhausted()
                },
                None => none_with_value_from(old(self).cursor(), wanted as nat)
                    && final(self).is_exhausted(),
            },
            r is None ==> final(self).is_exhausted(),
    {
        proof {
            use_type_invariant(&*self);
        }
        if self.is_maximum_reached {
            return None;
        }
        let start = self.index;
        let mut index = self.index;
        let mut value = self.thue_morse_provider.get_value(index);
        while value != wanted
            invariant
                self.thue_morse_provider.base() == 2,
                *self == *old(self),
                !self.is_maximum_reached,
                start == self.index,
                start <= index,
                value as nat == thue_morse(index as nat, 2),
                forall|j: nat| start <= j < index ==> thue_morse(j, 2) != wanted as nat,
            decreases usize::MAX - index,
        {
            match index.checked_add(1) {
                Some(next_index) => {
                    index = next_index;
                },
                None => {
                    self.is_maximum_reached = true;
                    return None;
                },
            }
            value = self.thue_morse_provider.get_value(index);
        }
        let found_at_index = index;
        match index.checked_add(1) {
            Some(next_index) => {
                self.index = next_index;
            },
            None => {
                self.index = index;
                self.is_maximum_reached = true;
            },
        }
        Some(found_at_index)
    }
}

/// Produces, in increasing order, the indices whose binary digits hold an
/// even number of ones.
pub struct EvilNumberIterator {
    scan: IndexScan,
}

impl EvilNumberIterator {
    /// The index at which the next scan starts.
    pub closed spec fn cursor(&self) -> nat {
        self.scan.cursor()
    }

    /// Whether the producer has reached its terminal state.
    pub closed spec fn is_exhausted(&self) -> bool {
        self.scan.is_exhausted()
    }

    /// A producer whose scan starts at index 0.
    pub fn new() -> (r: Self)
        ensures
            r.cursor() == 0,
            !r.is_exhausted(),
    {
        EvilNumberIterator { scan: IndexScan::new() }
    }

    /// The first evil index at or after the cursor, moving the cursor one
    /// past it; `None` when no such index fits in `usize`.
    pub fn next(&mut self) -> (r: Option<usize>)
        ensures
            old(self).is_exhausted() ==> r is None && *final(self) == *old(self),
            !old(self).is_exhausted() ==> match r {
                Some(k) => {
                    &&& is_evil(k as nat)
                    &&& is_first_with_value(old(self).cursor(), k as nat, 0)
                    &&& k < usize::MAX ==> final(self).cursor() == k + 1 && !final(self).is_exhausted()
                    &&& k == usize::MAX ==> final(self).cursor() == k && final(self).is_exhausted()
                },
                None => none_with_value_from(old(self).cursor(), 0) && final(self).is_exhausted(),
            },
            r is None ==> final(self).is_exhausted(),
    {
        self.scan.next_with_value(0)
    }
}

/// Produces, in increasing order, the indices whose binary digits hold an
/// odd number of ones.
pub struct OdiousNumberIterator {
    scan: IndexScan,
}

impl OdiousNumberIterator {
    /// The index at which the next scan starts.
    pub closed spec fn cursor(&self) -> nat {
        self.scan.cursor()
    }

    /// Whether the producer has reached its terminal state.
    pub closed spec fn is_exhausted(&self) -> bool {
        self.scan.is_exhausted()
    }

    /// A producer whose scan starts at index 0.
    pub fn new() -> (r: Self)
        ensures
            r.cursor() == 0,
            !r.is_exhausted(),
    {
        OdiousNumberIterator { scan: IndexScan::new() }
    }

    /// The first odious index at or after the cursor, moving the cursor one
    /// past it; `None` when no such index fits in `usize`.
    pub fn next(&mut self) -> (r: Option<usize>)
        ensures
            old(self).is_exhausted() ==> r is None && *final(self) == *old(self),
            !old(self).is_exhausted() ==> match r {
                Some(k) => {
                    &&& is_odious(k as nat)
                    &&& is_first_with_value(old(self).cursor(), k as nat, 1)
                    &&& k < usize::MAX ==> final(self).cursor() == k + 1 && !final(self).is_exhausted()
                    &&& k == usize::MAX ==> final(self).cursor() == k && final(self).is_exhausted()
                },
                None => none_with_value_from(old(self).cursor(), 1) && final(self).is_exhausted(),
            },
            r is None ==> final(self).is_exhausted(),
    {
        self.scan.next_with_value(1)
    }
}

} // verus!
