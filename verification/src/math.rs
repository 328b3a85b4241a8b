//! Fee arithmetic in basis points and integer square roots.
use vstd::prelude::*;

verus! {

/// One hundred percent, in basis points.
pub const BPS_DENOMINATOR: i128 = 10_000;

/// Integer division that rounds toward zero, as Rust's `/` does.
pub open spec fn trunc_div(a: int, b: int) -> int
    recommends
        b > 0,
{
    if a >= 0 {
        a / b
    } else {
        -((-a) / b)
    }
}

/// Whether `v` lies in the range of `i128`.
pub open spec fn fits_i128(v: int) -> bool {
    i128::MIN <= v <= i128::MAX
}

/// `amount * bps / 10000`, rounded toward zero; `None` where the product leaves `i128`.
pub open spec fn fee_bps_spec(amount: int, bps: int) -> Option<int> {
    if fits_i128(amount * bps) {
        Some(trunc_div(amount * bps, 10_000))
    } else {
        None
    }
}

/// `r` is the integer square root of `n`: the largest `r` with `r * r <= n`.
pub open spec fn is_isqrt(r: int, n: int) -> bool {
    0 <= r && r * r <= n && n < (r + 1) * (r + 1)
}

/// The integer square root of a non-negative `n`.
pub open spec fn isqrt(n: int) -> int {
    choose|r: int| #[trigger] is_isqrt(r, n)
}

proof fn lemma_trunc_div_i128(p: i128)
    ensures
        fits_i128(trunc_div(p as int, 10_000)),
        p >= 0 ==> 0 <= trunc_div(p as int, 10_000) <= p,
        p < 0 ==> p <= trunc_div(p as int, 10_000) <= 0,
{
}

/// Divides by 10000, rounding toward zero.
fn div_bps(p: i128) -> (r: i128)
    ensures
        r == trunc_div(p as int, 10_000),
{
    proof {
        lemma_trunc_div_i128(p);
    }
    if p >= 0 {
        p / 10_000
    } else {
        let neg: i128 = if p == i128::MIN {
            // |i128::MIN| / 10000 is the same as (|i128::MIN| - 1) / 10000
            // because 2^127 is not a multiple of 10000.
            assert((170141183460469231731687303715884105728int) / 10_000
                == (170141183460469231731687303715884105727int) / 10_000);
            i128::MAX
        } else {
            -p
        };
        -(neg / 10_000)
    }
}

/// The fee that `bps` basis points take from `amount`, or `None` on overflow.
pub fn calculate_fee_bps(amount: i128, bps: u32) -> (r: Option<i128>)
    ensures
        match fee_bps_spec(amount as int, bps as int) {
            Some(v) => r == Some(v as i128),
            None => r is None,
        },
{
    match amount.checked_mul(bps as i128) {
        Some(p) => Some(div_bps(p)),
        None => None,
    }
}

/// Splits a fee into `(treasury_cut, insurance_cut)`: the insurance cut is
/// `insurance_cut_bps` basis points of the fee and the treasury keeps the rest.
pub fn split_fee(fee: i128, insurance_cut_bps: u32) -> (r: Option<(i128, i128)>)
    ensures
        match fee_bps_spec(fee as int, insurance_cut_bps as int) {
            Some(ins) => if fits_i128(fee - ins) {
                r == Some(((fee - ins) as i128, ins as i128))
            } else {
                r is None
            },
            None => r is None,
        },
{
    match calculate_fee_bps(fee, insurance_cut_bps) {
        Some(insurance) => match fee.checked_sub(insurance) {
            Some(treasury) => Some((treasury, insurance)),
            None => None,
        },
        None => None,
    }
}


pub proof fn lemma_square_mono(a: int, b: int)
    requires
        0 <= a <= b,
    ensures
        a * a <= b * b,
{
    assert(a * a <= a * b) by (nonlinear_arith)
        requires
            0 <= a <= b,
    ;
    assert(a * b <= b * b) by (nonlinear_arith)
        requires
            0 <= a <= b,
    ;
}

/// The integer square root is unique.
pub proof fn lemma_isqrt_unique(r1: int, r2: int, n: int)
    requires
        is_isqrt(r1, n),
        is_isqrt(r2, n),
    ensures
        r1 == r2,
{
    if r1 < r2 {
        lemma_square_mono(r1 + 1, r2);
    } else if r2 < r1 {
        lemma_square_mono(r2 + 1, r1);
    }
}

/// The integer square root of `x`, or `None` when `x` is negative.
pub fn int_sqrt_i128(x: i128) -> (r: Option<i128>)
    ensures
        x < 0 ==> r is None,
        x >= 0 ==> r is Some && is_isqrt(r->0 as int, x as int) && r->0 == isqrt(x as int),
{
    if x < 0 {
        return None;
    }
    let n = x as u128;
    // Invariant: lo * lo <= n < hi * hi.
    let mut lo: u128 = 0;
    let mut hi: u128 = 0x1_0000_0000_0000_0000;
    assert(hi * hi == 0x1_0000_0000_0000_0000_0000_0000_0000_0000) by (nonlinear_arith)
        requires hi == 0x1_0000_0000_0000_0000u128;
    while hi - lo > 1
        invariant
            n == x as int,
            0 <= n < 0x8000_0000_0000_0000_0000_0000_0000_0000,
            lo < hi <= 0x1_0000_0000_0000_0000,
            lo * lo <= n,
            n < hi * hi,
        decreases hi - lo,
    {
        let mid = lo + (hi - lo) / 2;
        assert(mid < 0x1_0000_0000_0000_0000);
        assert(mid * mid < 0x1_0000_0000_0000_0000_0000_0000_0000_0000) by (nonlinear_arith)
            requires 0 <= mid < 0x1_0000_0000_0000_0000u128;
        if mid * mid <= n {
            lo = mid;
        } else {
            hi = mid;
        }
    }
    assert(lo < 0x8000_0000_0000_0000_0000_0000_0000_0000) by (nonlinear_arith)
        requires lo * lo <= n, n < 0x8000_0000_0000_0000_0000_0000_0000_0000, lo < 0x1_0000_0000_0000_0000;
    proof {
        assert(is_isqrt(lo as int, x as int));
        lemma_isqrt_unique(lo as int, isqrt(x as int), x as int);
    }
    Some(lo as i128)
}

// ── Fee helpers of the standalone payment router ─────────────────────────────

/// `amount * fee_bps / 10000`, rounded toward zero.
pub fn calculate_fee(amount: i128, fee_bps: u32) -> (fee: i128)
    requires
        fits_i128(amount * fee_bps),
    ensures
        fee == trunc_div(amount * fee_bps, 10_000),
{
    div_bps(amount * fee_bps as i128)
}

/// Splits a fee into `(insurance_portion, treasury_portion)`, the insurance
/// portion being `insurance_bps` basis points of the fee.
pub fn calculate_portions(total_fee: i128, insurance_bps: u32) -> (r: (i128, i128))
    requires
        fits_i128(total_fee * insurance_bps),
        fits_i128(total_fee - trunc_div(total_fee * insurance_bps, 10_000)),
    ensures
        r.0 == trunc_div(total_fee * insurance_bps, 10_000),
        r.1 == total_fee - r.0,
{
    let insurance_portion = div_bps(total_fee * insurance_bps as i128);
    let treasury_portion = total_fee - insurance_portion;
    (insurance_portion, treasury_portion)
}

/// What remains of `gross_amount` once `total_fee` is taken.
pub fn calculate_net_amount(gross_amount: i128, total_fee: i128) -> (net: i128)
    requires
        fits_i128(gross_amount - total_fee),
    ensures
        net == gross_amount - total_fee,
{
    gross_amount - total_fee
}

} // verus!
