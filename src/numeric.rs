//! Fixed-point working values: a non-negative decimal held as a mantissa and
//! a power-of-ten scale, its products and quotients (computed by
//! `rust_decimal`), flooring, and integer square and cube roots.

use vstd::prelude::*;
use integer_cbrt::IntegerCubeRoot;
use integer_sqrt::IntegerSquareRoot;

verus! {

/// Largest mantissa a working decimal can hold (96 bits).
pub const MAX_MANTISSA: u128 = 0xFFFF_FFFF_FFFF_FFFF_FFFF_FFFF;

/// Largest number of fractional digits a working decimal can hold.
pub const MAX_SCALE: u32 = 28;

/// `10^n`.
pub open spec fn pow10(n: nat) -> nat
    decreases n,
{
    if n == 0 {
        1
    } else {
        10 * pow10((n - 1) as nat)
    }
}

/// A non-negative decimal `num * 10^-scale`.
#[derive(Clone, Copy, Debug, PartialEq, Eq)]
pub struct Decimal {
    pub num: u128,
    pub scale: u32,
}

impl Decimal {
    /// The value can be represented by the fixed-point engine.
    pub open spec fn wf(self) -> bool {
        self.num <= MAX_MANTISSA && self.scale <= MAX_SCALE
    }

    /// The integer part of the value.
    pub open spec fn floor_spec(self) -> int {
        self.num as int / pow10(self.scale as nat) as int
    }

    /// The integer part of the value (the value is never negative, so this
    /// also truncates toward zero).
    pub fn floor(&self) -> (r: u128)
        requires
            self.wf(),
        ensures
            r == self.floor_spec(),
    {
        let p = pow10_u128(self.scale);
        proof {
            lemma_pow10_positive(self.scale as nat);
        }
        self.num / p
    }
}

pub proof fn lemma_pow10_positive(n: nat)
    ensures
        pow10(n) >= 1,
    decreases n,
{
    if n > 0 {
        lemma_pow10_positive((n - 1) as nat);
    }
}

pub proof fn lemma_pow10_monotonic(a: nat, b: nat)
    requires
        a <= b,
    ensures
        pow10(a) <= pow10(b),
    decreases b,
{
    if a < b {
        lemma_pow10_monotonic(a, (b - 1) as nat);
        lemma_pow10_positive((b - 1) as nat);
    }
}

/// `10^(a + b) == 10^a * 10^b`.
pub proof fn lemma_pow10_add(a: nat, b: nat)
    ensures
        pow10(a + b) == pow10(a) * pow10(b),
    decreases b,
{
    if b > 0 {
        lemma_pow10_add(a, (b - 1) as nat);
        assert(pow10(a + b) == 10 * pow10((a + b - 1) as nat));
        assert(pow10(b) == 10 * pow10((b - 1) as nat));
        assert(pow10(a) * (10 * pow10((b - 1) as nat)) == 10 * (pow10(a) * pow10((b - 1) as nat)))
            by (nonlinear_arith);
    } else {
        assert(pow10(0) == 1);
        assert(pow10(a) * 1 == pow10(a));
    }
}

proof fn lemma_pow10_38()
    ensures
        pow10(38) == 100_000_000_000_000_000_000_000_000_000_000_000_000nat,
{
    reveal_with_fuel(pow10, 39);
}

/// `10^n` as a machine integer; defined while it fits in 128 bits.
pub fn pow10_u128(n: u32) -> (r: u128)
    requires
        n <= 38,
    ensures
        r == pow10(n as nat),
{
    let mut r: u128 = 1;
    let mut i: u32 = 0;
    while i < n
        invariant
            i <= n <= 38,
            r == pow10(i as nat),
        decreases n - i,
    {
        proof {
            lemma_pow10_monotonic((i + 1) as nat, 38);
            lemma_pow10_38();
        }
        r = r * 10;
        i = i + 1;
    }
    r
}

/// What `rust_decimal` returns for the checked product of two decimals.
pub uninterp spec fn decimal_product(a: Decimal, b: Decimal) -> Option<Decimal>;

/// What `rust_decimal` returns for the checked quotient of two decimals.
pub uninterp spec fn decimal_quotient(a: Decimal, b: Decimal) -> Option<Decimal>;

/// The checked product of two decimals: zero (at scale 0) when a factor is
/// zero; the exact product when its mantissa fits in 96 bits and its scale,
/// the sum of the scales, is at most 28; otherwise what `rust_decimal`
/// returns after rounding, or `None` on overflow.
pub open spec fn decimal_mul_spec(a: Decimal, b: Decimal) -> Option<Decimal> {
    if a.num == 0 || b.num == 0 {
        Some(Decimal { num: 0, scale: 0 })
    } else if a.num * b.num <= MAX_MANTISSA && a.scale + b.scale <= MAX_SCALE {
        Some(Decimal { num: (a.num * b.num) as u128, scale: (a.scale + b.scale) as u32 })
    } else {
        decimal_product(a, b)
    }
}

/// Relies on `rust_decimal::Decimal::checked_mul`: `None` on overflow; a zero
/// factor gives zero at scale 0; a product whose mantissa fits in 96 bits and
/// whose scale is at most 28 is exact; any result fits the engine's bounds.
#[verifier::external_body]
pub(crate) fn decimal_mul(a: Decimal, b: Decimal) -> (r: Option<Decimal>)
    requires
        a.wf(),
        b.wf(),
    ensures
        r == decimal_mul_spec(a, b),
        r matches Some(d) ==> d.wf(),
        a.num * b.num > MAX_MANTISSA ==> r == decimal_product(a, b),
{
    let x = rust_decimal::Decimal::from_i128_with_scale(a.num as i128, a.scale);
    let y = rust_decimal::Decimal::from_i128_with_scale(b.num as i128, b.scale);
    match x.checked_mul(y) {
        Some(d) => Some(Decimal { num: d.mantissa() as u128, scale: d.scale() }),
        None => None,
    }
}

/// The checked quotient of two decimals: `None` for a zero divisor; zero (at
/// scale 0) for a zero dividend; the exact quotient when the divisor's
/// mantissa divides the dividend's and the dividend's scale is at least the
/// divisor's; otherwise what `rust_decimal` returns after rounding, or `None`
/// on overflow.
pub open spec fn decimal_div_spec(a: Decimal, b: Decimal) -> Option<Decimal> {
    if b.num == 0 {
        None
    } else if a.num == 0 {
        Some(Decimal { num: 0, scale: 0 })
    } else if a.num % b.num == 0 && a.scale >= b.scale {
        Some(Decimal { num: (a.num / b.num) as u128, scale: (a.scale - b.scale) as u32 })
    } else {
        decimal_quotient(a, b)
    }
}

/// Relies on `rust_decimal::Decimal::checked_div`: `None` for a zero divisor or
/// on overflow; a zero dividend gives zero at scale 0; when the divisor's
/// mantissa divides the dividend's and the dividend's scale is at least the
/// divisor's, the quotient is exact; any result fits the engine's bounds.
#[verifier::external_body]
pub(crate) fn decimal_div(a: Decimal, b: Decimal) -> (r: Option<Decimal>)
    requires
        a.wf(),
        b.wf(),
    ensures
        r == decimal_div_spec(a, b),
        r matches Some(d) ==> d.wf(),
        (a.num != 0 && b.num != 0 && a.num % b.num != 0) ==> r == decimal_quotient(a, b),
{
    let x = rust_decimal::Decimal::from_i128_with_scale(a.num as i128, a.scale);
    let y = rust_decimal::Decimal::from_i128_with_scale(b.num as i128, b.scale);
    match x.checked_div(y) {
        Some(d) => Some(Decimal { num: d.mantissa() as u128, scale: d.scale() }),
        None => None,
    }
}

/// Relies on `integer_sqrt::IntegerSquareRoot::integer_sqrt` for `u128`: the
/// largest integer whose square does not exceed the argument.
#[verifier::external_body]
pub(crate) fn isqrt(x: u128) -> (r: u128)
    ensures
        r * r <= x < (r + 1) * (r + 1),
{
    x.integer_sqrt()
}

/// Relies on `integer_cbrt::IntegerCubeRoot::integer_cbrt` for `u128`: the
/// largest integer whose cube does not exceed the argument.
#[verifier::external_body]
pub(crate) fn icbrt(x: u128) -> (r: u128)
    ensures
        r * r * r <= x < (r + 1) * (r + 1) * (r + 1),
{
    x.integer_cbrt()
}

/// `r` is the integer square root of `x`.
pub open spec fn is_floor_sqrt(r: nat, x: nat) -> bool {
    r * r <= x < (r + 1) * (r + 1)
}

/// `r` is the integer cube root of `x`.
pub open spec fn is_floor_cbrt(r: nat, x: nat) -> bool {
    r * r * r <= x < (r + 1) * (r + 1) * (r + 1)
}

/// The largest `r` with `r * r <= x`.
pub open spec fn floor_sqrt(x: nat) -> nat {
    choose|r: nat| is_floor_sqrt(r, x)
}

/// The largest `r` with `r * r * r <= x`.
pub open spec fn floor_cbrt(x: nat) -> nat {
    choose|r: nat| is_floor_cbrt(r, x)
}

proof fn lemma_floor_sqrt(r: nat, x: nat)
    requires
        r * r <= x < (r + 1) * (r + 1),
    ensures
        floor_sqrt(x) == r,
        r <= x,
{
    assert(is_floor_sqrt(r, x));
    let c = floor_sqrt(x);
    assert(c * c <= x < (c + 1) * (c + 1));
    if c < r {
        assert((c + 1) * (c + 1) <= r * r) by (nonlinear_arith)
            requires
                c < r,
        ;
    } else if r < c {
        assert((r + 1) * (r + 1) <= c * c) by (nonlinear_arith)
            requires
                r < c,
        ;
    }
    assert(r <= x) by (nonlinear_arith)
        requires
            r * r <= x,
    ;
}

proof fn lemma_floor_cbrt(r: nat, x: nat)
    requires
        r * r * r <= x < (r + 1) * (r + 1) * (r + 1),
    ensures
        floor_cbrt(x) == r,
        r <= x,
{
    assert(is_floor_cbrt(r, x));
    let c = floor_cbrt(x);
    assert(c * c * c <= x < (c + 1) * (c + 1) * (c + 1));
    if c < r {
        assert((c + 1) * (c + 1) * (c + 1) <= r * r * r) by (nonlinear_arith)
            requires
                c < r,
        ;
    } else if r < c {
        assert((r + 1) * (r + 1) * (r + 1) <= c * c * c) by (nonlinear_arith)
            requires
                r < c,
        ;
    }
    assert(r <= x) by (nonlinear_arith)
        requires
            r * r * r <= x,
    ;
}

/// Product of two optional decimals; absent when either is, or on overflow.
pub open spec fn mul_spec(a: Option<Decimal>, b: Option<Decimal>) -> Option<Decimal> {
    match (a, b) {
        (Some(x), Some(y)) => decimal_mul_spec(x, y),
        _ => None,
    }
}

/// Quotient of two optional decimals; absent when either is, for a zero
/// divisor, or on overflow.
pub open spec fn div_spec(a: Option<Decimal>, b: Option<Decimal>) -> Option<Decimal> {
    match (a, b) {
        (Some(x), Some(y)) => decimal_div_spec(x, y),
        _ => None,
    }
}

/// Number of extra digits taken before an integer square root.
pub const SQRT_EXTRA_DIGITS: u32 = 12;

/// Number of extra digits taken before an integer cube root.
pub const CBRT_EXTRA_DIGITS: u32 = 9;

/// Fixed-precision square root: scale up by `10^12`, floor, take the integer
/// square root, and read the root back with 6 fractional digits.
pub open spec fn sqrt_spec(a: Option<Decimal>) -> Option<Decimal> {
    match mul_spec(a, Some(Decimal { num: 1_000_000_000_000, scale: 0 })) {
        Some(e) => Some(Decimal { num: floor_sqrt(e.floor_spec() as nat) as u128, scale: 6 }),
        None => None,
    }
}

/// Fixed-precision cube root: scale up by `10^9`, floor, take the integer
/// cube root, and read the root back with 3 fractional digits.
pub open spec fn cbrt_spec(a: Option<Decimal>) -> Option<Decimal> {
    match mul_spec(a, Some(Decimal { num: 1_000_000_000, scale: 0 })) {
        Some(e) => Some(Decimal { num: floor_cbrt(e.floor_spec() as nat) as u128, scale: 3 }),
        None => None,
    }
}

/// `sqrt(x)` with 6 fractional digits, floored; `None` when scaling `x` up
/// overflows.
pub fn square_root(square: Decimal) -> (r: Option<Decimal>)
    requires
        square.wf(),
    ensures
        r == sqrt_spec(Some(square)),
        r matches Some(d) ==> d.wf(),
{
    let multiplier = pow10_u128(SQRT_EXTRA_DIGITS);
    assert(multiplier == 1_000_000_000_000) by {
        reveal_with_fuel(pow10, 13);
    }
    let extended = decimal_mul(square, Decimal { num: multiplier, scale: 0 })?;
    let whole = extended.floor();
    let root = isqrt(whole);
    proof {
        lemma_floor_sqrt(root as nat, whole as nat);
        lemma_pow10_positive(extended.scale as nat);
        assert(whole <= extended.num) by (nonlinear_arith)
            requires
                whole == extended.num as int / pow10(extended.scale as nat) as int,
                pow10(extended.scale as nat) >= 1,
        ;
    }
    Some(Decimal { num: root, scale: SQRT_EXTRA_DIGITS / 2 })
}

/// `cbrt(x)` with 3 fractional digits, floored; `None` when scaling `x` up
/// overflows.
pub fn cube_root(cube: Decimal) -> (r: Option<Decimal>)
    requires
        cube.wf(),
    ensures
        r == cbrt_spec(Some(cube)),
        r matches Some(d) ==> d.wf(),
{
    let multiplier = pow10_u128(CBRT_EXTRA_DIGITS);
    assert(multiplier == 1_000_000_000) by {
        reveal_with_fuel(pow10, 10);
    }
    let extended = decimal_mul(cube, Decimal { num: multiplier, scale: 0 })?;
    let whole = extended.floor();
    let root = icbrt(whole);
    proof {
        lemma_floor_cbrt(root as nat, whole as nat);
        lemma_pow10_positive(extended.scale as nat);
        assert(whole <= extended.num) by (nonlinear_arith)
            requires
                whole == extended.num as int / pow10(extended.scale as nat) as int,
                pow10(extended.scale as nat) >= 1,
        ;
    }
    Some(Decimal { num: root, scale: CBRT_EXTRA_DIGITS / 3 })
}

/// Every natural number has an integer square root.
pub proof fn lemma_floor_sqrt_exists(x: nat)
    ensures
        is_floor_sqrt(floor_sqrt(x), x),
    decreases x,
{
    if x == 0 {
        assert(is_floor_sqrt(0, 0)) by (nonlinear_arith);
    } else {
        lemma_floor_sqrt_exists((x - 1) as nat);
        let r = floor_sqrt((x - 1) as nat);
        if (r + 1) * (r + 1) <= x {
            assert((r + 1) * (r + 1) == x);
            assert(x < (r + 2) * (r + 2)) by (nonlinear_arith)
                requires
                    (r + 1) * (r + 1) == x,
                    r >= 0,
            ;
            assert(is_floor_sqrt(r + 1, x));
        } else {
            assert(is_floor_sqrt(r, x));
        }
    }
}

/// A root in the extended precision, cut back by the scale factor, is the
/// plain integer square root.
pub proof fn lemma_floor_sqrt_scaled(r: nat, q: nat, x: nat, m: nat)
    requires
        m >= 1,
        is_floor_sqrt(r, x),
        is_floor_sqrt(q, x * (m * m)),
    ensures
        q / m == r,
{
    assert(r * m <= q) by (nonlinear_arith)
        requires
            r * r <= x,
            x * (m * m) < (q + 1) * (q + 1),
            m >= 1,
    ;
    assert(q < (r + 1) * m) by (nonlinear_arith)
        requires
            q * q <= x * (m * m),
            x < (r + 1) * (r + 1),
            m >= 1,
    ;
    assert(q / m == r) by (nonlinear_arith)
        requires
            r * m <= q < (r + 1) * m,
            m >= 1,
    ;
}

} // verus!
