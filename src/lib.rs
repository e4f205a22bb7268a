//! The generalized Thue-Morse sequence: the term at an index is the sum of the
//! index's digits in a chosen base, reduced modulo that base. Also producers
//! of the evil and the odious numbers, the indices whose binary digits hold an
//! even or an odd number of ones.

mod digits;
mod filters;
mod provider;
mod sequence;

pub use digits::{bit_count, digit_sum, lemma_base_two_is_bit_parity, lemma_value_in_range, thue_morse};
pub use filters::{
    EvilNumberIterator, OdiousNumberIterator, is_evil, is_first_with_value, is_odious, lemma_evil_xor_odious,
    none_with_value_from,
};
pub use provider::{ThueMorseProvider, lemma_evaluation_repeatable};
pub use sequence::ThueMorseIterator;
