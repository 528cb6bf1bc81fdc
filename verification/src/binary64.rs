//! IEEE 754 binary64 arithmetic, carried out on integers.
//!
//! A binary64 number has 53 significant bits. As long as every operand and every
//! result of a computation is a multiple of `2^-56`, the whole computation can be
//! followed on integers that count units of `2^-56`: an operation is the exact
//! operation on the counts, followed by rounding to 53 significant bits, to the
//! nearest value and to the even one in a tie. Numbers of magnitude `2^-4` or more
//! are such multiples, and so are their products with integers and the sums of those.
use vstd::arithmetic::div_mod::{
    lemma_div_denominator, lemma_div_is_ordered, lemma_fundamental_div_mod,
};
use vstd::prelude::*;

verus! {

/// How many units of `2^-56` make up the number one.
pub const ONE: u64 = 0x100_0000_0000_0000;

/// The first count that needs more than 53 significant bits: `2^53`.
pub const PRECISION: u64 = 0x20_0000_0000_0000;

/// The largest magnitude that [`round`] takes, in units.
pub const LIMIT: u128 = 0x4_0000_0000_0000_0000;

/// The distance between neighbouring binary64 numbers at magnitude `m`, in units:
/// the least power of two that scales `m` below `2^53`.
pub open spec fn spacing(m: nat) -> nat
    decreases m,
{
    if m < PRECISION {
        1
    } else {
        2 * spacing(m / 2)
    }
}

/// The integer nearest to `n / d`, the even one where two are equally near.
pub open spec fn nearest_even(n: nat, d: nat) -> nat {
    let q = n / d;
    let r = n % d;
    if 2 * r < d || (2 * r == d && q % 2 == 0) {
        q
    } else {
        q + 1
    }
}

/// The binary64 number nearest to `n / d` units, ties to even.
pub open spec fn round_ratio(n: nat, d: nat) -> nat {
    let step = spacing(n / d);
    nearest_even(n, d * step) * step
}

/// The binary64 number that a decimal literal of value `num / den` denotes, in units, for
/// values of `2^-4` or more.
pub open spec fn decimal(num: nat, den: nat) -> int {
    round_ratio(num * ONE as nat, den) as int
}

/// The binary64 number nearest to the exact result `x`, both in units. Rounding is
/// symmetric around zero.
pub open spec fn rounded(x: int) -> int {
    if x < 0 {
        -(round_ratio((-x) as nat, 1) as int)
    } else {
        round_ratio(x as nat, 1) as int
    }
}

/// The conversion of a binary64 number to a byte: the fraction is cut off, and what is
/// out of range goes to the nearer end of the range.
pub open spec fn to_byte(x: int) -> u8 {
    if x < 0 {
        0
    } else if x >= 256 * ONE {
        255
    } else {
        (x / ONE as int) as u8
    }
}

/// `m` lies in the range where numbers are `spacing(m)` apart.
proof fn lemma_spacing(m: nat)
    ensures
        spacing(m) >= 1,
        m < PRECISION * spacing(m),
        spacing(m) == 1 || PRECISION * spacing(m) <= 2 * m,
    decreases m,
{
    if m >= PRECISION {
        lemma_spacing(m / 2);
    }
}

/// Below a power of two, the spacing is bounded accordingly.
proof fn lemma_spacing_limit(m: nat)
    requires
        m <= LIMIT,
    ensures
        spacing(m) <= 0x4000,
{
    lemma_spacing(m);
}

/// The spacing never shrinks as the magnitude grows, and it grows by doubling.
proof fn lemma_spacing_order(a: nat, b: nat)
    requires
        a <= b,
    ensures
        spacing(a) == spacing(b) || 2 * spacing(a) <= spacing(b),
    decreases b,
{
    lemma_spacing(b);
    if a >= PRECISION {
        lemma_spacing_order(a / 2, b / 2);
    } else if b >= PRECISION {
        lemma_spacing(b / 2);
    }
}

/// Rounding moves a number by at most half the spacing.
proof fn lemma_round_magnitude(m: nat)
    ensures
        -(spacing(m) as int) <= 2 * (round_ratio(m, 1) - m) <= spacing(m),
{
    let s = spacing(m);
    lemma_spacing(m);
    lemma_fundamental_div_mod(m as int, s as int);
    let q = m / s;
    assert(s * q == q * s) by (nonlinear_arith);
    assert((q + 1) * s == q * s + s) by (nonlinear_arith);
}

/// Rounding a magnitude keeps the order of magnitudes.
proof fn lemma_round_magnitude_order(a: nat, b: nat)
    requires
        a <= b,
    ensures
        round_ratio(a, 1) <= round_ratio(b, 1),
{
    let s = spacing(a);
    let t = spacing(b);
    lemma_spacing(a);
    lemma_spacing(b);
    lemma_spacing_order(a, b);
    lemma_fundamental_div_mod(a as int, s as int);
    lemma_fundamental_div_mod(b as int, t as int);
    let p = a / s;
    let q = b / t;
    if s == t {
        lemma_div_is_ordered(a as int, b as int, s as int);
        assert(nearest_even(a, s) <= nearest_even(b, s));
        assert(nearest_even(a, s) * s <= nearest_even(b, s) * s) by (nonlinear_arith)
            requires
                nearest_even(a, s) <= nearest_even(b, s),
        ;
    } else {
        // `a` stays within its range, whose end is at most the start of the range of `b`.
        assert(p < PRECISION) by (nonlinear_arith)
            requires
                s * p <= a,
                a < PRECISION * s,
                s >= 1,
        ;
        assert(nearest_even(a, s) * s <= PRECISION * s) by (nonlinear_arith)
            requires
                nearest_even(a, s) <= PRECISION,
        ;
        assert(2 * q >= PRECISION) by (nonlinear_arith)
            requires
                PRECISION * t <= 2 * b,
                b < t * q + t,
                t >= 1,
                PRECISION % 2 == 0,
        ;
        assert(2 * (nearest_even(b, t) * t) >= PRECISION * t) by (nonlinear_arith)
            requires
                2 * nearest_even(b, t) >= PRECISION,
        ;
    }
}

/// The error of one operation within [`LIMIT`]: at most `2^13` units.
pub proof fn lemma_rounding_error(x: int)
    requires
        -LIMIT <= x <= LIMIT,
    ensures
        -0x2000 <= rounded(x) - x <= 0x2000,
        x >= 0 ==> rounded(x) >= 0,
        x <= 0 ==> rounded(x) <= 0,
{
    let m = if x < 0 {
        (-x) as nat
    } else {
        x as nat
    };
    lemma_spacing_limit(m);
    lemma_round_magnitude(m);
    if x == 0 {
        assert(round_ratio(0, 1) == 0) by (nonlinear_arith);
    }
}

/// Rounding keeps the order of numbers: of two exact results, the smaller one is never
/// rounded to the larger number.
pub proof fn lemma_rounding_order(a: int, b: int)
    requires
        a <= b,
    ensures
        rounded(a) <= rounded(b),
{
    if a >= 0 {
        lemma_round_magnitude_order(a as nat, b as nat);
    } else if b < 0 {
        lemma_round_magnitude_order((-b) as nat, (-a) as nat);
    }
}

/// A literal denotes the multiple of the spacing that is strictly nearest to its value.
pub proof fn lemma_decimal(num: nat, den: nat, step: nat, count: nat)
    requires
        den > 0,
        step > 0,
        spacing((num * ONE as nat) / den) == step,
        -(den * step) < 2 * (num * ONE - count * (den * step)) < den * step,
    ensures
        decimal(num, den) == count * step,
{
    let n = num * ONE as nat;
    let d = den * step;
    assert(d > 0) by (nonlinear_arith)
        requires
            den > 0,
            step > 0,
            d == den * step,
    ;
    lemma_fundamental_div_mod(n as int, d as int);
    let q = n / d;
    let r = n % d;
    assert(n == q * d + r) by (nonlinear_arith)
        requires
            n == d * q + r,
    ;
    assert(count == q || count == q + 1) by (nonlinear_arith)
        requires
            n == q * d + r,
            0 <= r < d,
            -d < 2 * (n - count * d) < d,
    ;
    assert((q + 1) * d == q * d + d) by (nonlinear_arith);
}

/// Rounds the magnitude `m` to 53 significant bits.
fn round_magnitude(m: u128) -> (r: u128)
    requires
        m <= LIMIT,
    ensures
        r == round_ratio(m as nat, 1),
        r <= LIMIT + 0x2000,
{
    let mut quotient: u128 = m;
    let mut step: u128 = 1;
    proof {
        lemma_spacing_limit(m as nat);
        lemma_round_magnitude(m as nat);
    }
    while quotient >= PRECISION as u128
        invariant
            step >= 1,
            quotient == m / step,
            step * spacing(quotient as nat) == spacing(m as nat),
            spacing(m as nat) <= 0x4000,
        decreases quotient,
    {
        proof {
            lemma_div_denominator(m as int, step as int, 2);
            lemma_spacing(quotient as nat / 2);
            let half = spacing(quotient as nat / 2);
            assert(step * (2 * half) == (step * 2) * half) by (nonlinear_arith);
            assert(step * 2 <= (step * 2) * half) by (nonlinear_arith)
                requires
                    half >= 1,
            ;
        }
        quotient = quotient / 2;
        step = step * 2;
    }
    proof {
        assert(step * 1 == step) by (nonlinear_arith);
        assert(spacing(quotient as nat) == 1);
        lemma_fundamental_div_mod(m as int, step as int);
        assert(step * quotient == quotient * step) by (nonlinear_arith);
        assert((quotient + 1) * step == quotient * step + step) by (nonlinear_arith);
    }
    let floor: u128 = quotient * step;
    let rest: u128 = m - floor;
    if 2 * rest < step || (2 * rest == step && quotient % 2 == 0) {
        floor
    } else {
        floor + step
    }
}

/// Rounds an exact result of `x` units to the binary64 number that the operation yields.
pub fn round(x: i128) -> (r: i128)
    requires
        -LIMIT <= x <= LIMIT,
    ensures
        r == rounded(x as int),
{
    if x < 0 {
        -(round_magnitude((-x) as u128) as i128)
    } else {
        round_magnitude(x as u128) as i128
    }
}

/// Converts a binary64 number of `x` units to a byte.
pub fn byte_of(x: i128) -> (r: u8)
    ensures
        r == to_byte(x as int),
{
    if x < 0 {
        0
    } else if x >= 256 * ONE as i128 {
        255
    } else {
        (x / ONE as i128) as u8
    }
}

/// A number that binary64 holds, among those counted in units: an integer of at most
/// `2^53` in magnitude, scaled by a power of two.
pub open spec fn is_binary64(x: int) -> bool {
    exists|k: int, e: nat| #[trigger] is_scaled(x, k, e)
}

/// `x` is `k` scaled by `2^e`, with `k` of at most `2^53` in magnitude.
pub open spec fn is_scaled(x: int, k: int, e: nat) -> bool {
    -PRECISION <= k <= PRECISION && x == k * vstd::arithmetic::power2::pow2(e)
}

/// The distance between two numbers.
pub open spec fn distance(x: int, y: int) -> int {
    if x <= y {
        y - x
    } else {
        x - y
    }
}

/// The spacing is a power of two.
proof fn lemma_spacing_power(m: nat) -> (e: nat)
    ensures
        spacing(m) == vstd::arithmetic::power2::pow2(e),
    decreases m,
{
    vstd::arithmetic::power2::lemma2_to64();
    if m < PRECISION {
        0
    } else {
        let e = lemma_spacing_power(m / 2);
        vstd::arithmetic::power2::lemma_pow2_unfold(e + 1);
        e + 1
    }
}

/// No multiple of the spacing is nearer to a magnitude than its rounding.
proof fn lemma_nearest_multiple(m: nat, j: int)
    ensures
        distance(round_ratio(m, 1) as int, m as int) <= distance(j * spacing(m), m as int),
{
    let s = spacing(m) as int;
    lemma_spacing(m);
    lemma_fundamental_div_mod(m as int, s);
    let q = m as int / s;
    let r = m as int % s;
    assert(s * q == q * s) by (nonlinear_arith);
    assert((q + 1) * s == q * s + s) by (nonlinear_arith);
    assert(j <= q ==> j * s <= q * s) by (nonlinear_arith)
        requires
            s >= 1,
    ;
    assert(j >= q + 1 ==> j * s >= (q + 1) * s) by (nonlinear_arith)
        requires
            s >= 1,
    ;
}

/// No binary64 number is nearer to a magnitude than its rounding.
proof fn lemma_nearest_magnitude(m: nat, y: int, k: int, f: nat)
    requires
        is_scaled(y, k, f),
    ensures
        distance(round_ratio(m, 1) as int, m as int) <= distance(y, m as int),
{
    let s = spacing(m) as int;
    let e = lemma_spacing_power(m);
    let p = vstd::arithmetic::power2::pow2(f) as int;
    lemma_spacing(m);
    vstd::arithmetic::power2::lemma_pow2_pos(f);
    if f >= e {
        let t = vstd::arithmetic::power2::pow2((f - e) as nat) as int;
        vstd::arithmetic::power2::lemma_pow2_adds((f - e) as nat, e);
        assert(k * (t * s) == (k * t) * s) by (nonlinear_arith);
        lemma_nearest_multiple(m, k * t);
    } else {
        // `y` lies below the range of `m`, whose start is a multiple of the spacing.
        let half = PRECISION as int / 2;
        vstd::arithmetic::power2::lemma_pow2_unfold(e);
        if f < e - 1 {
            vstd::arithmetic::power2::lemma_pow2_strictly_increases(f, (e - 1) as nat);
        }
        assert(2 * p <= s);
        assert(k * p <= half * s) by (nonlinear_arith)
            requires
                k <= 2 * half,
                0 < p,
                2 * p <= s,
                half > 0,
        ;
        assert(half * s <= m) by (nonlinear_arith)
            requires
                (2 * half) * s <= 2 * m,
        ;
        lemma_nearest_multiple(m, half);
    }
}

/// The rounding of an exact result is a binary64 number.
pub proof fn law_rounded_is_binary64(x: int)
    ensures
        is_binary64(rounded(x)),
{
    let m = if x < 0 {
        (-x) as nat
    } else {
        x as nat
    };
    let s = spacing(m) as int;
    let e = lemma_spacing_power(m);
    lemma_spacing(m);
    lemma_fundamental_div_mod(m as int, s);
    let q = m as int / s;
    assert(q < PRECISION) by (nonlinear_arith)
        requires
            s * q <= m,
            m < PRECISION * s,
            s >= 1,
    ;
    assert(q >= 0) by (nonlinear_arith)
        requires
            s >= 1,
            q == m as int / s,
            m >= 0,
    ;
    let k = nearest_even(m, 1 * spacing(m)) as int;
    assert(1 * spacing(m) == spacing(m));
    if x < 0 {
        assert(-(k * s) == (-k) * s) by (nonlinear_arith);
        assert(is_scaled(rounded(x), -k, e));
    } else {
        assert(is_scaled(rounded(x), k, e));
    }
}

/// No binary64 number is nearer to an exact result than its rounding.
pub proof fn law_rounded_is_nearest(x: int, y: int)
    requires
        is_binary64(y),
    ensures
        distance(rounded(x), x) <= distance(y, x),
{
    let (k, f) = choose|k: int, f: nat| #[trigger] is_scaled(y, k, f);
    if x < 0 {
        let p = vstd::arithmetic::power2::pow2(f) as int;
        assert(-(k * p) == (-k) * p) by (nonlinear_arith);
        assert(is_scaled(-y, -k, f));
        lemma_nearest_magnitude((-x) as nat, -y, -k, f);
    } else {
        lemma_nearest_magnitude(x as nat, y, k, f);
    }
}

/// Rounding is symmetric around zero, and where an exact result lies halfway between two
/// neighbours it is rounded to the one that is an even multiple of their distance.
pub proof fn law_rounding_ties(x: nat)
    ensures
        rounded(-x) == -rounded(x as int),
        2 * distance(rounded(x as int), x as int) == spacing(x) ==> rounded(x as int) % (2
            * spacing(x) as int) == 0,
{
    let s = spacing(x) as int;
    lemma_spacing(x);
    lemma_fundamental_div_mod(x as int, s);
    let q = x as int / s;
    let k = nearest_even(x, 1 * spacing(x)) as int;
    assert(1 * spacing(x) == spacing(x));
    assert(s * q == q * s) by (nonlinear_arith);
    assert((q + 1) * s == q * s + s) by (nonlinear_arith);
    if 2 * distance(rounded(x as int), x as int) == s {
        let h = k / 2;
        assert(k == 2 * h);
        assert(k * s == h * (2 * s)) by (nonlinear_arith)
            requires
                k == 2 * h,
        ;
        vstd::arithmetic::div_mod::lemma_mod_multiples_basic(h, 2 * s);
    }
    if x == 0 {
        assert(round_ratio(0, 1) == 0) by (nonlinear_arith);
    }
}

/// A number becomes the byte that it begins with, and the ends of the range stand for
/// what is beyond them.
pub proof fn law_to_byte(x: int)
    ensures
        x < 0 ==> to_byte(x) == 0,
        x >= 255 * ONE ==> to_byte(x) == 255,
        0 <= x < 256 * ONE ==> to_byte(x) * ONE <= x < (to_byte(x) + 1) * ONE,
{
}

} // verus!
