//! Basis-point fee arithmetic shared by all contracts.
use vstd::prelude::*;

verus! {

/// Number of basis points in 100%.
pub const TOTAL_BASIS_POINTS: u128 = 10_000;

/// `basis_points * amount`, saturated at `u128::MAX`.
pub open spec fn saturated_product(amount: u128, basis_points: u32) -> int {
    let p = basis_points as int * amount as int;
    if p > u128::MAX as int {
        u128::MAX as int
    } else {
        p
    }
}

/// Fee of `basis_points` on `amount`, rounded down.
pub open spec fn fee_floor(amount: u128, basis_points: u32) -> int {
    saturated_product(amount, basis_points) / 10_000
}

/// Fee of `basis_points` on `amount`, rounded up.
pub open spec fn fee_ceil(amount: u128, basis_points: u32) -> int {
    (saturated_product(amount, basis_points) + 9_999) / 10_000
}

/// `basis_points * amount` with saturation at `u128::MAX`.
pub fn saturating_mul_basis_points(amount: u128, basis_points: u32) -> (r: u128)
    ensures
        r == saturated_product(amount, basis_points),
{
    if basis_points == 0 {
        assert(basis_points as int * amount as int == 0) by (nonlinear_arith)
            requires basis_points == 0;
        return 0;
    }
    let bp = basis_points as u128;
    let bound = u128::MAX / bp;
    if amount > bound {
        assert(bp as int * amount as int > u128::MAX as int) by (nonlinear_arith)
            requires
                bp > 0,
                bound == u128::MAX as int / bp as int,
                amount > bound,
        {
            assert(u128::MAX as int == (u128::MAX as int / bp as int) * bp as int + (u128::MAX as int % bp as int));
        }
        u128::MAX
    } else {
        assert(bp as int * amount as int <= u128::MAX as int) by (nonlinear_arith)
            requires
                bp > 0,
                bound == u128::MAX as int / bp as int,
                amount <= bound,
        {
            assert(u128::MAX as int == (u128::MAX as int / bp as int) * bp as int + (u128::MAX as int % bp as int));
        }
        bp * amount
    }
}

/// Fee on `amount` at `basis_points`, rounded down (the multiplication saturates).
pub fn calculate_fee(amount: u128, basis_points: u32) -> (fee: u128)
    ensures
        fee == fee_floor(amount, basis_points),
{
    let product = saturating_mul_basis_points(amount, basis_points);
    product / TOTAL_BASIS_POINTS
}

/// Fee on `amount` at `basis_points`, rounded up (the multiplication saturates).
pub fn calculate_fee_round_up(amount: u128, basis_points: u32) -> (fee: u128)
    ensures
        fee == fee_ceil(amount, basis_points),
{
    let product = saturating_mul_basis_points(amount, basis_points);
    let q = product / TOTAL_BASIS_POINTS;
    if product % TOTAL_BASIS_POINTS != 0 {
        q + 1
    } else {
        q
    }
}

/// A fee at no more than 100% never exceeds the amount it is taken from, and a
/// rounded-up fee exceeds the rounded-down one by at most one.
pub proof fn lemma_fee_bounds(amount: u128, basis_points: u32)
    requires
        basis_points <= 10_000,
    ensures
        0 <= fee_floor(amount, basis_points) <= fee_ceil(amount, basis_points) <= amount,
        fee_ceil(amount, basis_points) <= fee_floor(amount, basis_points) + 1,
        fee_floor(amount, basis_points) * 10_000 <= basis_points * amount,
{
    assert(basis_points as int * amount as int <= 10_000 * amount as int) by (nonlinear_arith)
        requires basis_points <= 10_000;
    assert(0 <= basis_points as int * amount as int) by (nonlinear_arith);
}

/// A higher rate never yields a lower fee.
pub proof fn lemma_fee_monotonic(amount: u128, bp1: u32, bp2: u32)
    requires
        bp1 <= bp2,
    ensures
        fee_floor(amount, bp1) <= fee_floor(amount, bp2),
        fee_ceil(amount, bp1) <= fee_ceil(amount, bp2),
{
    assert(bp1 as int * amount as int <= bp2 as int * amount as int) by (nonlinear_arith)
        requires bp1 <= bp2;
    assert(0 <= bp1 as int * amount as int) by (nonlinear_arith);
    let a = saturated_product(amount, bp1);
    let b = saturated_product(amount, bp2);
    assert(a <= b);
    assert(a / 10_000 <= b / 10_000) by (nonlinear_arith) requires a <= b;
    assert((a + 9_999) / 10_000 <= (b + 9_999) / 10_000) by (nonlinear_arith) requires a <= b;
}

} // verus!
