//! Decimal quantities as scaled integers.
//!
//! Telemetry is measured in seconds, lap fractions, metres per second, degrees
//! and litres. The library holds each of them in millionths of its unit, so
//! that every sum and comparison is exact.

use vstd::prelude::*;

verus! {

/// A quantity in millionths of its unit: `1_500_000` seconds is one and a half.
pub type Micro = i64;

/// One whole unit.
pub const ONE: i64 = 1_000_000;

/// The quantity nearest to `x` that fits.
pub open spec fn clamped(x: int) -> Micro {
    if x > i64::MAX {
        i64::MAX
    } else if x < i64::MIN {
        i64::MIN
    } else {
        x as i64
    }
}

/// `x` where it fits, the nearest quantity that does otherwise.
pub fn clamp(x: i128) -> (r: Micro)
    ensures
        r == clamped(x as int),
{
    if x > i64::MAX as i128 {
        i64::MAX
    } else if x < i64::MIN as i128 {
        i64::MIN
    } else {
        x as i64
    }
}

/// `a + b`, held at the ends of the range.
pub fn plus(a: Micro, b: Micro) -> (r: Micro)
    ensures
        r == clamped(a + b),
{
    clamp(a as i128 + b as i128)
}

/// `a - b`, held at the ends of the range.
pub fn minus(a: Micro, b: Micro) -> (r: Micro)
    ensures
        r == clamped(a - b),
{
    clamp(a as i128 - b as i128)
}

/// `num / den` rounded down.
pub fn quotient(num: i128, den: i128) -> (r: i128)
    requires
        den > 0,
    ensures
        r == num as int / den as int,
{
    proof {
        lemma_quotient_in_range(num as int, den as int);
    }
    match num.checked_div_euclid(den) {
        Some(q) => q,
        None => 0,
    }
}

/// Dividing by a positive number never moves away from zero by more than one.
proof fn lemma_quotient_in_range(num: int, den: int)
    by (nonlinear_arith)
    requires
        den > 0,
        i128::MIN <= num <= i128::MAX,
    ensures
        i128::MIN <= num / den <= i128::MAX,
{
}

/// `x` held between zero and one whole unit.
pub open spec fn unit_clamped(x: int) -> Micro {
    if x < 0 {
        0
    } else if x > ONE {
        ONE
    } else {
        x as i64
    }
}

/// `x` held between zero and one whole unit.
pub fn unit_clamp(x: Micro) -> (r: Micro)
    ensures
        r == unit_clamped(x as int),
{
    if x < 0 {
        0
    } else if x > ONE {
        ONE
    } else {
        x
    }
}

/// `x` in whole `unit`s, rounded to the nearest; half way it is the even one.
pub open spec fn rounded(x: int, unit: int) -> int {
    let q = x / unit;
    let rest = x % unit;
    if 2 * rest > unit || (2 * rest == unit && q % 2 == 1) {
        q + 1
    } else {
        q
    }
}

/// `x` in whole `unit`s, rounded to the nearest; half way it is the even one.
pub fn round_to(x: Micro, unit: i64) -> (r: i64)
    requires
        1 < unit <= ONE,
    ensures
        r == rounded(x as int, unit as int),
{
    let q: i128 = quotient(x as i128, unit as i128);
    proof {
        let a = x as int;
        let u = unit as int;
        assert(-0x8000_0000_0000_0000 <= a / u <= 0x4000_0000_0000_0000) by (nonlinear_arith)
            requires
                -0x8000_0000_0000_0000 <= a <= 0x7fff_ffff_ffff_ffff,
                u > 1,
        ;
        assert(a == u * (a / u) + a % u && 0 <= a % u < u) by (nonlinear_arith)
            requires
                u > 0,
        ;
        assert((a / u) * u == u * (a / u)) by (nonlinear_arith);
    }
    let rest: i128 = x as i128 - q * unit as i128;
    let odd: bool = q != 2 * quotient(q, 2);
    if 2 * rest > unit as i128 || (2 * rest == unit as i128 && odd) {
        (q + 1) as i64
    } else {
        q as i64
    }
}

/// A quantity that fits stays what it is; any other becomes the end of the range that is
/// nearest to it.
pub proof fn holding_changes_only_what_does_not_fit(x: int)
    ensures
        -0x8000_0000_0000_0000 <= x <= 0x7fff_ffff_ffff_ffff ==> clamped(x) == x,
        x > 0x7fff_ffff_ffff_ffff ==> clamped(x) == 0x7fff_ffff_ffff_ffff,
        x < -0x8000_0000_0000_0000 ==> clamped(x) == -0x8000_0000_0000_0000,
        0 <= x <= 1_000_000 ==> unit_clamped(x) == x,
        x > 1_000_000 ==> unit_clamped(x) == 1_000_000,
        x < 0 ==> unit_clamped(x) == 0,
{
}

/// A rounded quantity is no more than half a unit off, and even where it is just that.
pub proof fn rounding_is_half_a_unit_off_at_most(x: int, unit: int)
    requires
        unit > 0,
    ensures
        ({
            let r = rounded(x, unit);
            &&& -unit <= 2 * (x - r * unit) <= unit
            &&& 2 * (x - r * unit) == unit || 2 * (x - r * unit) == -unit ==> r % 2 == 0
        }),
{
    let q = x / unit;
    let rest = x % unit;
    assert(x == q * unit + rest && 0 <= rest < unit) by (nonlinear_arith)
        requires
            unit > 0,
            q == x / unit,
            rest == x % unit,
    ;
    assert((q + 1) * unit == q * unit + unit) by (nonlinear_arith);
}

} // verus!
