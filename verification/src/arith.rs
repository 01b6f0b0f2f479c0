//! Facts about truncated proportional arithmetic.
//!
//! The pool prices everything with multiply-then-divide expressions over
//! unsigned integers.  These lemmas bound such quotients so the operations
//! can show that released amounts never exceed the reserves and that the
//! reserves stay positive while shares remain outstanding.

use vstd::prelude::*;

use vstd::arithmetic::div_mod::lemma_div_is_ordered_by_denominator;
use vstd::arithmetic::div_mod::lemma_div_multiples_vanish;
use vstd::arithmetic::div_mod::lemma_div_pos_is_pos;
use vstd::arithmetic::div_mod::lemma_multiply_divide_le;
use vstd::arithmetic::div_mod::lemma_multiply_divide_lt;
use vstd::arithmetic::mul::lemma_mul_is_commutative;
use vstd::arithmetic::mul::lemma_mul_nonnegative;
use vstd::arithmetic::mul::lemma_mul_strict_inequality;
use vstd::arithmetic::mul::lemma_mul_inequality;

verus! {

/// The share-proportional slice `quantity * reserve / total` of a reserve:
/// it is never negative, never exceeds the reserve, exhausts the reserve
/// exactly when every share is burned, and leaves at least one unit behind
/// while any share stays outstanding.
pub proof fn lemma_proportional_slice(quantity: int, reserve: int, total: int)
    requires
        0 <= quantity,
        0 <= reserve,
        0 < total,
        quantity <= total,
    ensures
        0 <= (quantity * reserve) / total,
        (quantity * reserve) / total <= reserve,
        quantity == total ==> (quantity * reserve) / total == reserve,
        quantity < total && 0 < reserve ==> (quantity * reserve) / total < reserve,
{
    lemma_mul_nonnegative(quantity, reserve);
    lemma_div_pos_is_pos(quantity * reserve, total);
    lemma_mul_inequality(quantity, total, reserve);
    lemma_multiply_divide_le(quantity * reserve, total, reserve);
    if quantity == total {
        lemma_mul_is_commutative(total, reserve);
        lemma_div_multiples_vanish(reserve, total);
    }
    if quantity < total && 0 < reserve {
        lemma_mul_strict_inequality(quantity, total, reserve);
        lemma_multiply_divide_lt(quantity * reserve, total, reserve);
    }
}

/// Dividing the constant product by a grown token1 reserve stays within the
/// token2 reserve: `reserve1 * reserve2 / grown1` is between 0 and
/// `reserve2` whenever `grown1` is at least `reserve1`.
pub proof fn lemma_product_quotient_shrinks(reserve1: int, reserve2: int, grown1: int)
    requires
        0 < reserve1,
        0 <= reserve2,
        reserve1 <= grown1,
    ensures
        0 <= (reserve1 * reserve2) / grown1,
        (reserve1 * reserve2) / grown1 <= reserve2,
{
    lemma_mul_nonnegative(reserve1, reserve2);
    lemma_div_pos_is_pos(reserve1 * reserve2, grown1);
    lemma_div_is_ordered_by_denominator(reserve1 * reserve2, reserve1, grown1);
    lemma_mul_is_commutative(reserve1, reserve2);
    lemma_div_multiples_vanish(reserve2, reserve1);
}

/// Dividing the constant product by a shrunk token2 reserve yields at least
/// the token1 reserve: `reserve1 * reserve2 / shrunk2 >= reserve1` whenever
/// `shrunk2` is positive and at most `reserve2`.
pub proof fn lemma_product_quotient_grows(reserve1: int, reserve2: int, shrunk2: int)
    requires
        0 <= reserve1,
        0 < reserve2,
        0 < shrunk2,
        shrunk2 <= reserve2,
    ensures
        (reserve1 * reserve2) / shrunk2 >= reserve1,
{
    lemma_mul_nonnegative(reserve1, reserve2);
    lemma_div_is_ordered_by_denominator(reserve1 * reserve2, shrunk2, reserve2);
    lemma_mul_is_commutative(reserve1, reserve2);
    lemma_div_multiples_vanish(reserve1, reserve2);
}

} // verus!
