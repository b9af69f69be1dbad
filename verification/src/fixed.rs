//! Fixed-point arithmetic on millionths.
//!
//! A dollar amount, a share count or a price is an `i64` that counts millionths
//! of the unit: `1_000_000` stands for one dollar, one share, or a price of one
//! dollar per share. Sums and differences are exact. Products and quotients are
//! rounded toward zero to a millionth.
use vstd::prelude::*;

verus! {

/// The number of millionths in one unit.
pub const SCALE: i64 = 1_000_000;

/// Whether an integer can be stored in an `i64`.
pub open spec fn fits(x: int) -> bool {
    i64::MIN <= x <= i64::MAX
}

/// The quotient of `x` by a positive `d`, rounded toward zero.
pub open spec fn toward_zero(x: int, d: int) -> int
    recommends
        d > 0,
{
    if x >= 0 {
        x / d
    } else {
        -((-x) / d)
    }
}

/// The quotient of `x` by a nonzero `d`, rounded toward zero.
pub open spec fn quotient(x: int, d: int) -> int
    recommends
        d != 0,
{
    if d > 0 {
        toward_zero(x, d)
    } else {
        toward_zero(-x, -d)
    }
}

/// The quotient of `x` by a positive `d`, rounded up to the next integer.
pub open spec fn rounded_up(x: int, d: int) -> int
    recommends
        d > 0,
{
    -((-x) / d)
}

/// The quotient of `x` by a positive `d`, rounded down to the previous integer.
pub open spec fn rounded_down(x: int, d: int) -> int
    recommends
        d > 0,
{
    x / d
}

/// The fixed-point product of two quantities in millionths.
pub open spec fn product(a: int, b: int) -> int {
    toward_zero(a * b, SCALE as int)
}

/// The fixed-point quotient of two quantities in millionths.
pub open spec fn ratio(a: int, b: int) -> int
    recommends
        b != 0,
{
    quotient(a * SCALE, b)
}

/// The smaller of two integers.
pub open spec fn least(a: int, b: int) -> int {
    if a <= b {
        a
    } else {
        b
    }
}

/// Stores a wide integer in an `i64` when it fits.
pub fn narrow(x: i128) -> (r: Option<i64>)
    ensures
        r == if fits(x as int) {
            Some(x as i64)
        } else {
            None::<i64>
        },
{
    if x < -0x8000_0000_0000_0000i128 || x > 0x7fff_ffff_ffff_ffffi128 {
        None
    } else {
        Some(x as i64)
    }
}

/// The sum of two amounts, when it can be stored.
pub fn checked_sum(a: i64, b: i64) -> (r: Option<i64>)
    ensures
        r == if fits(a + b) {
            Some((a + b) as i64)
        } else {
            None::<i64>
        },
{
    narrow(a as i128 + b as i128)
}

/// The difference of two amounts, when it can be stored.
pub fn checked_difference(a: i64, b: i64) -> (r: Option<i64>)
    ensures
        r == if fits(a - b) {
            Some((a - b) as i64)
        } else {
            None::<i64>
        },
{
    narrow(a as i128 - b as i128)
}

/// A product of two `i64` values stays far inside the range of `i128`.
pub proof fn lemma_product_bound(a: int, b: int)
    requires
        fits(a),
        fits(b),
    ensures
        -0x4000_0000_0000_0000_0000_0000_0000_0000 <= a * b
            <= 0x4000_0000_0000_0000_0000_0000_0000_0000,
{
    assert(-0x8000_0000_0000_0000 * 0x8000_0000_0000_0000 <= a * b <= 0x8000_0000_0000_0000
        * 0x8000_0000_0000_0000) by (nonlinear_arith)
        requires
            -0x8000_0000_0000_0000 <= a <= 0x8000_0000_0000_0000,
            -0x8000_0000_0000_0000 <= b <= 0x8000_0000_0000_0000,
    ;
}

/// The exact product of two `i64` values.
pub(crate) fn wide_product(a: i64, b: i64) -> (r: i128)
    ensures
        r == a * b,
{
    proof {
        lemma_product_bound(a as int, b as int);
    }
    let x: i128 = a as i128;
    let y: i128 = b as i128;
    x * y
}

/// The quotient of a wide integer by a nonzero one, rounded toward zero.
pub(crate) fn wide_quotient(x: i128, d: i128) -> (r: i128)
    requires
        d != 0,
        -0x4000_0000_0000_0000_0000_0000_0000_0000 <= x
            <= 0x4000_0000_0000_0000_0000_0000_0000_0000,
        -0x4000_0000_0000_0000_0000_0000_0000_0000 <= d
            <= 0x4000_0000_0000_0000_0000_0000_0000_0000,
    ensures
        r == quotient(x as int, d as int),
{
    if d > 0 {
        x / d
    } else {
        (-x) / (-d)
    }
}

/// The quotient of a wide integer by a positive `i64`, rounded up.
pub(crate) fn wide_rounded_up(x: i128, d: i64) -> (r: i128)
    requires
        d > 0,
        -0x4000_0000_0000_0000_0000_0000_0000_0000 <= x
            <= 0x4000_0000_0000_0000_0000_0000_0000_0000,
    ensures
        r == rounded_up(x as int, d as int),
{
    let wide: i128 = d as i128;
    if x <= 0 {
        // for a dividend that is not positive, rounding toward zero rounds up
        let below: i128 = -x;
        -(below / wide)
    } else {
        let q: i128 = x / wide;
        let rest: i128 = x % wide;
        proof {
            lemma_rounded_up_positive(x as int, d as int);
        }
        if rest == 0 {
            q
        } else {
            q + 1
        }
    }
}

/// The quotient of a wide integer by a positive `i64`, rounded down.
pub(crate) fn wide_rounded_down(x: i128, d: i64) -> (r: i128)
    requires
        d > 0,
        -0x4000_0000_0000_0000_0000_0000_0000_0000 <= x
            <= 0x4000_0000_0000_0000_0000_0000_0000_0000,
    ensures
        r == rounded_down(x as int, d as int),
{
    let wide: i128 = d as i128;
    if x >= 0 {
        x / wide
    } else {
        let below: i128 = -x;
        let q: i128 = below / wide;
        let rest: i128 = below % wide;
        proof {
            lemma_rounded_up_positive(below as int, d as int);
        }
        if rest == 0 {
            -q
        } else {
            -q - 1
        }
    }
}

/// For a positive dividend the quotient rounded up is the quotient rounded down,
/// plus one where the division leaves a remainder.
pub proof fn lemma_rounded_up_positive(x: int, d: int)
    requires
        x > 0,
        d > 0,
    ensures
        rounded_up(x, d) == if x % d == 0 {
            x / d
        } else {
            x / d + 1
        },
        0 <= x / d <= x,
{
    let q = x / d;
    let r = x % d;
    assert(x == d * q + r && 0 <= r < d) by (nonlinear_arith)
        requires
            d > 0,
            q == x / d,
            r == x % d,
    ;
    assert(0 <= q <= x) by (nonlinear_arith)
        requires
            x == d * q + r,
            0 <= r < d,
            d > 0,
            x > 0,
    ;
    if r == 0 {
        assert((-x) / d == -q) by (nonlinear_arith)
            requires
                x == d * q,
                d > 0,
        ;
    } else {
        assert((-x) / d == -q - 1) by (nonlinear_arith)
            requires
                x == d * q + r,
                0 < r < d,
        ;
    }
}

/// Whether an integer is so large that no `i64` comes near it.
pub open spec fn far_out(x: int) -> bool {
    x < -0x1_0000_0000_0000_0000_0000_0000 || x > 0x1_0000_0000_0000_0000_0000_0000
}

/// A dividend near the limits of `i128` has a quotient by a small divisor that is
/// far outside the range of `i64`.
pub proof fn lemma_huge_quotient(x: int, d: int)
    requires
        0 < d <= 0x10_0000,
        x < -0x4000_0000_0000_0000_0000_0000_0000_0000 || x
            > 0x4000_0000_0000_0000_0000_0000_0000_0000,
    ensures
        far_out(rounded_up(x, d)),
{
    let y = -x;
    let q = y / d;
    let r = y % d;
    assert(y == d * q + r && 0 <= r < d) by (nonlinear_arith)
        requires
            d > 0,
            q == y / d,
            r == y % d,
    ;
    if x > 0 {
        assert(q < -0x1_0000_0000_0000_0000_0000_0000) by (nonlinear_arith)
            requires
                y == d * q + r,
                0 <= r < d,
                0 < d <= 0x10_0000,
                y < -0x4000_0000_0000_0000_0000_0000_0000_0000,
        ;
    } else {
        assert(q > 0x1_0000_0000_0000_0000_0000_0000) by (nonlinear_arith)
            requires
                y == d * q + r,
                0 <= r < d,
                0 < d <= 0x10_0000,
                y > 0x4000_0000_0000_0000_0000_0000_0000_0000,
        ;
    }
}

/// The part `part / whole` of `total`, rounded up. Where the product is too
/// large to compute, the part is far outside the range of `i64`, and `None` is
/// returned.
pub(crate) fn checked_share(total: i128, part: i64, whole: i64) -> (r: Option<i128>)
    requires
        0 < whole <= 0x10_0000,
    ensures
        match r {
            Some(share) => share == rounded_up(total * part, whole as int),
            None => far_out(rounded_up(total * part, whole as int)),
        },
{
    match total.checked_mul(part as i128) {
        Some(wide) => {
            if wide < -0x4000_0000_0000_0000_0000_0000_0000_0000i128 || wide
                > 0x4000_0000_0000_0000_0000_0000_0000_0000i128 {
                proof {
                    lemma_huge_quotient(wide as int, whole as int);
                }
                None
            } else {
                Some(wide_rounded_up(wide, whole))
            }
        },
        None => {
            proof {
                lemma_huge_quotient(total * part, whole as int);
            }
            None
        },
    }
}

/// The fixed-point product, when it can be stored.
pub fn checked_product(a: i64, b: i64) -> (r: Option<i64>)
    ensures
        r == if fits(product(a as int, b as int)) {
            Some(product(a as int, b as int) as i64)
        } else {
            None::<i64>
        },
{
    let wide: i128 = wide_product(a, b);
    proof {
        lemma_product_bound(a as int, b as int);
    }
    narrow(wide_quotient(wide, SCALE as i128))
}

/// The fixed-point quotient by a nonzero divisor, when it can be stored.
pub fn checked_ratio(a: i64, b: i64) -> (r: Option<i64>)
    requires
        b != 0,
    ensures
        r == if fits(ratio(a as int, b as int)) {
            Some(ratio(a as int, b as int) as i64)
        } else {
            None::<i64>
        },
{
    let wide: i128 = wide_product(a, SCALE);
    proof {
        lemma_product_bound(a as int, SCALE as int);
    }
    narrow(wide_quotient(wide, b as i128))
}

/// Zero divided by anything is zero.
pub proof fn lemma_ratio_of_zero(b: int)
    requires
        b != 0,
    ensures
        ratio(0, b) == 0,
{
    assert(0 * SCALE == 0);
    if b > 0 {
        assert(0int / b == 0) by (nonlinear_arith)
            requires
                b > 0,
        ;
    } else {
        assert(0int / (-b) == 0) by (nonlinear_arith)
            requires
                -b > 0,
        ;
    }
}

/// A multiple of a nonzero number, divided by that number, is the other factor.
pub proof fn lemma_quotient_of_multiple(a: int, b: int)
    requires
        b != 0,
    ensures
        quotient(a * b, b) == a,
{
    if b > 0 {
        lemma_toward_zero_of_multiple(a, b);
    } else {
        assert(-(a * b) == a * (-b)) by (nonlinear_arith);
        lemma_toward_zero_of_multiple(a, -b);
    }
}

/// A multiple of a positive number, divided by that number, is the other factor.
pub proof fn lemma_toward_zero_of_multiple(a: int, d: int)
    requires
        d > 0,
    ensures
        toward_zero(a * d, d) == a,
{
    if a * d >= 0 {
        assert((a * d) / d == a) by (nonlinear_arith)
            requires
                d > 0,
        ;
    } else {
        assert((-(a * d)) / d == -a) by (nonlinear_arith)
            requires
                d > 0,
        ;
    }
}

/// Where a product of two quantities is a whole number of millionths, dividing
/// their fixed-point product by one of them gives the other back.
pub proof fn lemma_product_then_ratio(a: int, b: int)
    requires
        b != 0,
        (a * b) % (SCALE as int) == 0,
    ensures
        ratio(product(a, b), b) == a,
{
    let x = a * b;
    let p = product(a, b);
    assert(p * SCALE == x) by {
        if x >= 0 {
            assert((x / 1_000_000) * 1_000_000 == x) by (nonlinear_arith)
                requires
                    x % 1_000_000 == 0,
            ;
        } else {
            assert(((-x) / 1_000_000) * 1_000_000 == -x) by (nonlinear_arith)
                requires
                    x % 1_000_000 == 0,
            ;
        }
    }
    lemma_quotient_of_multiple(a, b);
}

} // verus!
