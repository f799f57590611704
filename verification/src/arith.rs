//! Arithmetic and its aborts.

use vstd::prelude::*;

verus! {

pub open spec fn is_i128(x: int) -> bool {
    i128::MIN <= x <= i128::MAX
}

/// `x`, or the bound of `i128` next to it.
pub open spec fn clamp_i128(x: int) -> i128 {
    if x < i128::MIN {
        i128::MIN
    } else if x > i128::MAX {
        i128::MAX
    } else {
        x as i128
    }
}

/// `a - b`, or the bound of `i128` next to it.
pub fn saturating_sub(a: i128, b: i128) -> (r: i128)
    ensures
        r == clamp_i128(a - b),
{
    match a.checked_sub(b) {
        Some(difference) => difference,
        None => if b < 0 {
            i128::MAX
        } else {
            i128::MIN
        },
    }
}

/// `a + b`, or the bound of `i128` next to it.
pub fn saturating_add(a: i128, b: i128) -> (r: i128)
    ensures
        r == clamp_i128(a + b),
{
    match a.checked_add(b) {
        Some(sum) => sum,
        None => if b < 0 {
            i128::MIN
        } else {
            i128::MAX
        },
    }
}

/// `a * b`, or the bound of `i128` next to it.
pub fn saturating_mul(a: i128, b: i128) -> (r: i128)
    ensures
        r == clamp_i128(a * b),
{
    proof {
        assert((a < 0) == (b < 0) ==> a * b >= 0) by (nonlinear_arith);
        assert((a < 0) != (b < 0) ==> a * b <= 0) by (nonlinear_arith);
    }
    match a.checked_mul(b) {
        Some(product) => product,
        None => if (a < 0) == (b < 0) {
            i128::MAX
        } else {
            i128::MIN
        },
    }
}

/// Quotient of two integers, rounded toward zero.
pub open spec fn quotient(a: int, b: int) -> int {
    if a >= 0 {
        a / b
    } else {
        -((-a) / b)
    }
}

/// A quotient is no farther from zero than what is divided.
pub proof fn lemma_quotient_bounds(a: int, b: int)
    requires
        b != 0,
    ensures
        a >= 0 ==> -a <= quotient(a, b) <= a,
        a < 0 ==> a <= quotient(a, b) <= -a,
{
    let n = if a >= 0 {
        a
    } else {
        -a
    };
    assert(-n <= n / b <= n) by (nonlinear_arith)
        requires
            n >= 0,
            b != 0,
    ;
}

/// A number is its quotient times the divisor, and a rest on the same side of
/// zero that is smaller than the divisor.
proof fn lemma_quotient_rest(a: int, b: int)
    requires
        b > 0,
    ensures
        a >= 0 ==> 0 <= quotient(a, b) * b <= a && 0 <= a - quotient(a, b) * b < b && 0
            <= quotient(a, b),
        a <= 0 ==> a <= quotient(a, b) * b <= 0 && -b < a - quotient(a, b) * b <= 0
            && quotient(a, b) <= 0,
{
    let n = if a >= 0 {
        a
    } else {
        -a
    };
    let q = n / b;
    assert(0 <= q && 0 <= q * b <= n && 0 <= n - q * b < b) by (nonlinear_arith)
        requires
            n >= 0,
            b > 0,
            q == n / b,
    ;
    assert((-q) * b == -(q * b)) by (nonlinear_arith);
}

/// Whole multiples of the divisor come out of a quotient unchanged, if what is
/// left lies on the same side of zero.
proof fn lemma_quotient_of_sum(multiple: int, rest: int, b: int)
    requires
        b > 0,
        (multiple >= 0 && rest >= 0) || (multiple <= 0 && rest <= 0),
    ensures
        quotient(multiple * b + rest, b) == multiple + quotient(rest, b),
{
    let m = if multiple >= 0 && rest >= 0 {
        multiple
    } else {
        -multiple
    };
    let r = if multiple >= 0 && rest >= 0 {
        rest
    } else {
        -rest
    };
    assert(m * b >= 0 && (m * b + r) / b == m + r / b) by {
        assert(m * b >= 0) by (nonlinear_arith)
            requires
                m >= 0,
                b > 0,
        ;
        vstd::arithmetic::div_mod::lemma_hoist_over_denominator(r, m, b as nat);
        assert(r / b + m == (r + m * b) / b);
    }
    assert((-m) * b == -(m * b)) by (nonlinear_arith);
}

/// The product of two numbers lies on the side of zero that their signs give.
proof fn lemma_sign_of_product(a: int, b: int)
    ensures
        a >= 0 && b >= 0 || a <= 0 && b <= 0 ==> a * b >= 0,
        a >= 0 && b <= 0 || a <= 0 && b >= 0 ==> a * b <= 0,
{
    assert(a >= 0 && b >= 0 || a <= 0 && b <= 0 ==> a * b >= 0) by (nonlinear_arith);
    assert(a >= 0 && b <= 0 || a <= 0 && b >= 0 ==> a * b <= 0) by (nonlinear_arith);
}

/// `a * b / scale`, rounded toward zero, or the bound of `i128` next to it. The
/// product itself may be out of range.
pub fn scaled_product(a: i128, b: i128, scale: i128) -> (r: i128)
    requires
        0 < scale <= 1_000_000_000_000_000_000,
    ensures
        r == clamp_i128(quotient(a * b, scale as int)),
{
    let a_whole: i128 = a / scale;
    let b_whole: i128 = b / scale;
    proof {
        lemma_quotient_rest(a as int, scale as int);
        lemma_quotient_rest(b as int, scale as int);
    }
    let a_rest: i128 = a - a_whole * scale;
    let b_rest: i128 = b - b_whole * scale;
    proof {
        let (ar, br, s) = (a_rest as int, b_rest as int, scale as int);
        assert(-(s * s) <= ar * br <= s * s) by (nonlinear_arith)
            requires
                -s < ar < s,
                -s < br < s,
        ;
        assert(s * s <= 1_000_000_000_000_000_000_000_000_000_000_000_000) by (nonlinear_arith)
            requires
                0 < s <= 1_000_000_000_000_000_000,
        ;
        lemma_sign_of_product(a_whole as int, b as int);
        lemma_sign_of_product(ar, b_whole as int);
        lemma_sign_of_product(ar, br);
        let multiple = a_whole * b + ar * b_whole;
        assert(a * b == multiple * s + ar * br) by (nonlinear_arith)
            requires
                a == a_whole * s + ar,
                b == b_whole * s + br,
                multiple == a_whole * b + ar * b_whole,
        ;
        lemma_quotient_of_sum(multiple, ar * br, s);
        lemma_quotient_rest(ar * br, s);
    }
    let whole: i128 = saturating_mul(a_whole, b);
    let part: i128 = saturating_mul(a_rest, b_whole);
    let rest: i128 = (a_rest * b_rest) / scale;
    saturating_add(saturating_add(whole, part), rest)
}

/// A number that fits stays as it is, and one that does not becomes the bound
/// that is next to it.
pub proof fn law_saturation(x: int)
    ensures
        is_i128(x) <==> i128::MIN <= x && x <= i128::MAX,
        i128::MIN <= x && x <= i128::MAX ==> clamp_i128(x) == x,
        x > i128::MAX ==> clamp_i128(x) == i128::MAX,
        x < i128::MIN ==> clamp_i128(x) == i128::MIN,
{
}

/// A quotient by a positive number is the largest whole number of times that it
/// goes into what is divided; that of a debt is the same, as a debt.
pub proof fn law_quotient(a: int, b: int)
    requires
        a >= 0,
        b > 0,
    ensures
        quotient(a, b) * b <= a < (quotient(a, b) + 1) * b,
        quotient(-a, b) == -quotient(a, b),
{
    lemma_quotient_rest(a, b);
    let q = quotient(a, b);
    assert((q + 1) * b == q * b + b) by (nonlinear_arith);
}

} // verus!
