use vstd::prelude::*;

use crate::digits::thue_morse;
use crate::provider::ThueMorseProvider;

verus! {

/// Produces the values of a provider at indices 0, 1, 2, ... until the index
/// space of `usize` is used up.
pub struct ThueMorseIterator {
    thue_morse_provider: ThueMorseProvider,
    index: usize,
    is_maximum_reached: bool,
}

impl ThueMorseProvider {
    /// A producer over this provider's values, starting at index 0.
    pub fn into_iter(self) -> (r: ThueMorseIterator)
        ensures
            r.base() == self.base(),
            r.cursor() == 0,
            !r.is_exhausted(),
    {
        ThueMorseIterator { thue_morse_provider: self, index: 0, is_maximum_reached: false }
    }
}

impl ThueMorseIterator {
    /// The base of the underlying provider.
    pub closed spec fn base(&self) -> nat {
        self.thue_morse_provider.base()
    }

    /// The index whose value the next call produces.
    pub closed spec fn cursor(&self) -> nat {
        self.index as nat
    }

    /// Whether the producer has reached its terminal state.
    pub closed spec fn is_exhausted(&self) -> bool {
        self.is_maximum_reached
    }

    /// The value at the cursor, moving the cursor one step on; `None` once
    /// the last index of `usize` has been produced.
    pub fn next(&mut self) -> (r: Option<u32>)
        ensures
            old(self).is_exhausted() ==> r is None && *final(self) == *old(self),
            !old(self).is_exhausted() ==> {
                &&& r is Some
                &&& r.unwrap() as nat == thue_morse(old(self).cursor(), old(self).base())
                &&& final(self).base() == old(self).base()
                &&& old(self).cursor() < usize::MAX ==> final(self).cursor() == old(self).cursor()
                    + 1 && !final(self).is_exhausted()
                &&& old(self).cursor() == usize::MAX ==> final(self).cursor() == old(self).cursor()
                    && final(self).is_exhausted()
            },
            r is None ==> final(self).is_exhausted(),
    {
        if self.is_maximum_reached {
            return None;
        }
        let value = self.thue_morse_provider.get_value(self.index);
        match self.index.checked_add(1) {
            Some(next_index) => {
                self.index = next_index;
            },
            None => {
                self.is_maximum_reached = true;
            },
        }
        Some(value)
    }
}

} // verus!
