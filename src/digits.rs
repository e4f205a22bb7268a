use vstd::prelude::*;

verus! {

/// Sum of the base-`b` digits of `n` (zero for a base below two).
pub open spec fn digit_sum(n: nat, b: nat) -> nat
    decreases n
    via digit_sum_decreases
{
    if n == 0 || b < 2 {
        0
    } else {
        n % b + digit_sum(n / b, b)
    }
}

#[via_fn]
proof fn digit_sum_decreases(n: nat, b: nat) {
    if n != 0 && b >= 2 {
        assert(n / b < n) by (nonlinear_arith)
            requires n > 0, b >= 2;
    }
}

/// Number of ones in the binary representation of `n`.
pub open spec fn bit_count(n: nat) -> nat
    decreases n,
{
    if n == 0 {
        0
    } else {
        n % 2 + bit_count(n / 2)
    }
}

/// Term `n` of the generalized Thue-Morse sequence in base `b`.
pub open spec fn thue_morse(n: nat, b: nat) -> nat {
    if b == 0 {
        0
    } else {
        digit_sum(n, b) % b
    }
}

/// The digit sum never exceeds the number itself.
pub proof fn lemma_digit_sum_le(n: nat, b: nat)
    ensures
        digit_sum(n, b) <= n,
    decreases n,
{
    if n != 0 && b >= 2 {
        assert(n / b < n) by (nonlinear_arith)
            requires n > 0, b >= 2;
        lemma_digit_sum_le(n / b, b);
        assert(n == b * (n / b) + n % b) by (nonlinear_arith)
            requires b >= 2;
        assert(n / b <= b * (n / b)) by (nonlinear_arith)
            requires b >= 2;
    }
}

/// In base two the digit sum is the number of set bits.
pub proof fn lemma_base_two_digit_sum(n: nat)
    ensures
        digit_sum(n, 2) == bit_count(n),
    decreases n,
{
    if n != 0 {
        lemma_base_two_digit_sum(n / 2);
    }
}

/// In base two a term is the parity of the number of set bits of its index.
pub proof fn lemma_base_two_is_bit_parity(n: nat)
    ensures
        thue_morse(n, 2) == bit_count(n) % 2,
{
    lemma_base_two_digit_sum(n);
}

/// For every base of at least two, each term lies in `[0, b)` and the term at
/// index zero is zero.
pub proof fn lemma_value_in_range(n: nat, b: nat)
    requires
        b >= 2,
    ensures
        0 <= thue_morse(n, b) < b,
        thue_morse(0, b) == 0,
{
}

} // verus!
