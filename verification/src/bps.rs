//! Amounts in basis points.

use vstd::prelude::*;

verus! {

/// One whole, in basis points.
pub const BPS_DENOM: u32 = 10_000;

/// The smaller of two integers.
pub open spec fn min_of(x: int, y: int) -> int {
    if x <= y {
        x
    } else {
        y
    }
}

/// The larger of two integers.
pub open spec fn max_of(x: int, y: int) -> int {
    if x >= y {
        x
    } else {
        y
    }
}

/// `bps` basis points of a non-negative `amount`, rounded down, where the product is held at the
/// largest unsigned amount.
pub open spec fn bps_share(amount: int, bps: int) -> int {
    min_of(amount * bps, u128::MAX as int) / BPS_DENOM as int
}

/// `bps` basis points of `amount`, rounded toward zero.
pub open spec fn bps_portion(amount: int, bps: int) -> int {
    if amount >= 0 {
        (amount * bps) / BPS_DENOM as int
    } else {
        -(((-amount) * bps) / BPS_DENOM as int)
    }
}

/// Whether `amount` is representable as a token amount.
pub open spec fn fits_i128(amount: int) -> bool {
    i128::MIN <= amount <= i128::MAX
}

/// `bps` basis points of `amount`, saturating.
pub fn share(amount: u128, bps: u128) -> (r: u128)
    ensures
        r == bps_share(amount as int, bps as int),
{
    proof {
        lemma_product_bounds(amount as int, bps as int);
    }
    let product: u128 = match amount.checked_mul(bps) {
        Some(p) => p,
        None => u128::MAX,
    };
    product / 10_000
}

/// `bps` basis points of a token amount, or `None` where the product does not fit.
pub fn portion(amount: i128, bps: u32) -> (r: Option<i128>)
    ensures
        r == (if fits_i128(amount * bps) {
            Some(bps_portion(amount as int, bps as int) as i128)
        } else {
            None
        }),
        r matches Some(v) ==> v == bps_portion(amount as int, bps as int),
{
    proof {
        lemma_portion_sign(amount as int, bps as int);
    }
    match amount.checked_mul(bps as i128) {
        Some(p) => p.checked_div(10_000),
        None => None,
    }
}

/// Quotient and remainder of `amount * factor` by `whole`, whether or not the product fits: the
/// factor is built up bit by bit, and the remainder is brought back below `whole` at each step.
pub(crate) fn scaled_div(amount: u128, factor: u32, whole: u128) -> (r: (u128, u128))
    requires
        0 < whole <= i128::MAX,
        amount / whole <= u32::MAX,
    ensures
        amount * factor == r.0 * whole + r.1,
        r.1 < whole,
        r.0 <= factor * 0x1_0000_0000,
    decreases factor,
{
    if factor == 0 {
        return (0, 0);
    }
    let (half, left): (u128, u128) = scaled_div(amount, factor / 2, whole);
    let (mut quotient, mut rest): (u128, u128) = if left + left >= whole {
        (half + half + 1, left + left - whole)
    } else {
        (half + half, left + left)
    };
    let ghost even = (factor / 2) * 2;
    assert(amount * even == quotient * whole + rest) by (nonlinear_arith)
        requires
            amount * (factor / 2) == half * whole + left,
            even == (factor / 2) * 2,
            (quotient == 2 * half + 1 && rest == 2 * left - whole) || (quotient == 2 * half && rest
                == 2 * left),
    ;
    if factor % 2 == 1 {
        let ghost before = (quotient as int, rest as int);
        let once: u128 = amount / whole;
        let over: u128 = amount % whole;
        proof {
            vstd::arithmetic::div_mod::lemma_fundamental_div_mod(amount as int, whole as int);
        }
        if rest + over >= whole {
            quotient = quotient + once + 1;
            rest = rest + over - whole;
        } else {
            quotient = quotient + once;
            rest = rest + over;
        }
        assert(amount * (even + 1) == quotient * whole + rest) by (nonlinear_arith)
            requires
                amount * even == before.0 * whole + before.1,
                amount == whole * once + over,
                (quotient == before.0 + once + 1 && rest == before.1 + over - whole) || (quotient
                    == before.0 + once && rest == before.1 + over),
        ;
    }
    proof {
        lemma_quotient_bound(
            amount as int,
            factor as int,
            whole as int,
            quotient as int,
            rest as int,
        );
    }
    (quotient, rest)
}

proof fn lemma_quotient_bound(amount: int, factor: int, whole: int, quotient: int, rest: int)
    requires
        0 < whole,
        0 <= factor,
        0 <= amount,
        0 <= rest,
        amount / whole <= u32::MAX,
        amount * factor == quotient * whole + rest,
    ensures
        quotient <= factor * 0x1_0000_0000,
{
    vstd::arithmetic::div_mod::lemma_fundamental_div_mod(amount, whole);
    let once = amount / whole;
    let over = amount % whole;
    assert(quotient <= factor * 0x1_0000_0000) by (nonlinear_arith)
        requires
            0 < whole,
            0 <= factor,
            0 <= rest,
            once <= 0xffff_ffff,
            amount == whole * once + over,
            over < whole,
            amount * factor == quotient * whole + rest,
    {
        assert(amount <= whole * 0x1_0000_0000);
        assert(amount * factor <= (whole * 0x1_0000_0000) * factor);
        assert(quotient * whole <= (factor * 0x1_0000_0000) * whole);
    }
}

proof fn lemma_product_bounds(x: int, y: int)
    requires
        0 <= x,
        0 <= y,
    ensures
        0 <= x * y,
{
    assert(0 <= x * y) by (nonlinear_arith)
        requires
            0 <= x,
            0 <= y,
    ;
}

proof fn lemma_portion_sign(amount: int, bps: int)
    requires
        0 <= bps,
    ensures
        amount >= 0 ==> amount * bps >= 0,
        amount < 0 ==> amount * bps <= 0,
        (-amount) * bps == -(amount * bps),
{
    assert(amount >= 0 ==> amount * bps >= 0) by (nonlinear_arith)
        requires
            0 <= bps,
    ;
    assert(amount < 0 ==> amount * bps <= 0) by (nonlinear_arith)
        requires
            0 <= bps,
    ;
    assert((-amount) * bps == -(amount * bps)) by (nonlinear_arith);
}

/// A share grows with the amount and with the rate.
pub proof fn lemma_share_monotone(amount: int, more: int, bps: int, more_bps: int)
    requires
        0 <= amount <= more,
        0 <= bps <= more_bps,
    ensures
        0 <= bps_share(amount, bps) <= bps_share(more, more_bps),
{
    assert(0 <= amount * bps <= more * more_bps) by (nonlinear_arith)
        requires
            0 <= amount <= more,
            0 <= bps <= more_bps,
    ;
}

/// A rate of at most one whole covers at most the whole amount.
pub proof fn lemma_portion_bounds(amount: int, bps: int)
    requires
        0 <= amount,
        0 <= bps <= BPS_DENOM,
    ensures
        0 <= bps_portion(amount, bps) <= amount,
{
    assert(0 <= amount * bps <= amount * 10_000) by (nonlinear_arith)
        requires
            0 <= amount,
            0 <= bps <= 10_000,
    ;
}

} // verus!
