use vstd::prelude::*;

use crate::digits::{bit_count, digit_sum, lemma_base_two_digit_sum, lemma_digit_sum_le, thue_morse};

verus! {

/// Relies on `usize::count_ones`: the number of ones in the binary
/// representation of its argument.
#[verifier::external_body]
fn count_ones(n: usize) -> (r: u32)
    ensures
        r as nat == bit_count(n as nat),
{
    n.count_ones()
}

/// The digit-sum-mod-base function for one fixed base.
pub struct ThueMorseProvider {
    base: u32,
}

impl ThueMorseProvider {
    #[verifier::type_invariant]
    spec fn base_at_least_two(self) -> bool {
        self.base >= 2
    }

    /// The base that this instance works in.
    pub closed spec fn base(&self) -> nat {
        self.base as nat
    }

    /// A provider for `base`; bases below two are refused by the precondition.
    pub fn new(base: u32) -> (r: Self)
        requires
            base >= 2,
        ensures
            r.base() == base as nat,
    {
        ThueMorseProvider { base }
    }

    /// The sum of the base digits of `index`, reduced modulo the base.
    pub fn get_value(&self, index: usize) -> (r: u32)
        ensures
            r as nat == thue_morse(index as nat, self.base()),
            (r as nat) < self.base(),
    {
        proof {
            use_type_invariant(self);
        }
        if self.base == 2 {
            let ones = count_ones(index);
            proof {
                lemma_base_two_digit_sum(index as nat);
            }
            ones % 2
        } else {
            let b = self.base as usize;
            let mut rest = index;
            let mut result: usize = 0;
            proof {
                lemma_digit_sum_le(index as nat, b as nat);
            }
            while rest > 0
                invariant
                    b >= 2,
                    b as nat == self.base(),
                    result + digit_sum(rest as nat, b as nat) == digit_sum(index as nat, b as nat),
                    digit_sum(index as nat, b as nat) <= index,
                decreases rest,
            {
                proof {
                    lemma_digit_sum_le((rest / b) as nat, b as nat);
                    assert(rest / b < rest) by (nonlinear_arith)
                        requires rest > 0, b >= 2;
                }
                result = result + rest % b;
                rest = rest / b;
            }
            (result % b) as u32
        }
    }
}

/// Evaluating one provider twice at one index gives the same value: whatever
/// two calls of `get_value` return at `index` are equal.
pub proof fn lemma_evaluation_repeatable(p: &ThueMorseProvider, index: usize, first: u32, second: u32)
    requires
        first as nat == thue_morse(index as nat, p.base()),
        second as nat == thue_morse(index as nat, p.base()),
    ensures
        first == second,
{
}

} // verus!
