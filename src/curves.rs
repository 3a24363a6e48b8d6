//! The five pricing strategies. Each gives the spot price at a supply, the
//! reserve paid in up to a supply (the integral of the spot price), and the
//! supply that a reserve buys (the inverse of that integral).

use vstd::prelude::*;
use crate::numeric::{
    cbrt_spec, cube_root, decimal_div, decimal_div_spec, decimal_mul, decimal_mul_spec, div_spec,
    is_floor_sqrt, floor_sqrt, lemma_floor_sqrt_exists, lemma_floor_sqrt_scaled,
    lemma_pow10_add, lemma_pow10_monotonic, lemma_pow10_positive, mul_spec, pow10, pow10_u128, sqrt_spec,
    square_root, Decimal, MAX_MANTISSA, MAX_SCALE,
};

verus! {

/// `num * 10^-scale` as a working decimal, when it can be represented.
pub open spec fn decimal_spec(num: u128, scale: u32) -> Option<Decimal> {
    if num <= MAX_MANTISSA && scale <= MAX_SCALE {
        Some(Decimal { num, scale })
    } else {
        None
    }
}

/// `num * 10^-scale`; `None` when the mantissa exceeds 96 bits or the scale
/// exceeds 28.
pub fn decimal(num: u128, scale: u32) -> (r: Option<Decimal>)
    ensures
        r == decimal_spec(num, scale),
{
    if num <= MAX_MANTISSA && scale <= MAX_SCALE {
        Some(Decimal { num, scale })
    } else {
        None
    }
}

/// A decimal expressed in minor units with `places` decimal places, floored;
/// absent when the decimal is, when `10^places` is not representable, or when
/// the scaled value overflows.
pub open spec fn units_spec(a: Option<Decimal>, places: u32) -> Option<u128> {
    match a {
        Some(x) => if places <= MAX_SCALE {
            match decimal_mul_spec(x, Decimal { num: pow10(places as nat) as u128, scale: 0 }) {
                Some(p) => Some(p.floor_spec() as u128),
                None => None,
            }
        } else {
            None
        },
        None => None,
    }
}

proof fn lemma_pow10_28()
    ensures
        pow10(28) == 10_000_000_000_000_000_000_000_000_000nat,
{
    reveal_with_fuel(pow10, 29);
}

/// A decimal in minor units with `places` decimal places, floored.
fn to_units(x: Decimal, places: u32) -> (r: Option<u128>)
    requires
        x.wf(),
    ensures
        r == units_spec(Some(x), places),
{
    if places > MAX_SCALE {
        return None;
    }
    let factor = pow10_u128(places);
    proof {
        lemma_pow10_monotonic(places as nat, 28);
        lemma_pow10_positive(places as nat);
        lemma_pow10_28();
    }
    let out = decimal_mul(x, Decimal { num: factor, scale: 0 })?;
    Some(out.floor())
}

/// Decimal places of the supply token and of the reserve currency.
#[derive(Clone, Copy, Debug, PartialEq, Eq)]
pub struct DecimalPlaces {
    /// Decimal places of the supply token.
    pub supply: u32,
    /// Decimal places of the reserve currency.
    pub reserve: u32,
}

impl DecimalPlaces {
    pub fn new(supply: u8, reserve: u8) -> (r: Self)
        ensures
            r.supply == supply,
            r.reserve == reserve,
    {
        DecimalPlaces { supply: supply as u32, reserve: reserve as u32 }
    }

    /// A decimal amount of reserve in its minor units, floored.
    pub fn to_reserve(self, reserve: Decimal) -> (r: Option<u128>)
        requires
            reserve.wf(),
        ensures
            r == units_spec(Some(reserve), self.reserve),
    {
        to_units(reserve, self.reserve)
    }

    /// A decimal amount of supply in its minor units, floored.
    pub fn to_supply(self, supply: Decimal) -> (r: Option<u128>)
        requires
            supply.wf(),
        ensures
            r == units_spec(Some(supply), self.supply),
    {
        to_units(supply, self.supply)
    }

    /// Supply minor units as a decimal amount.
    pub fn from_supply(&self, supply: u128) -> (r: Option<Decimal>)
        ensures
            r == decimal_spec(supply, self.supply),
    {
        decimal(supply, self.supply)
    }

    /// Reserve minor units as a decimal amount.
    pub fn from_reserve(&self, reserve: u128) -> (r: Option<Decimal>)
        ensures
            r == decimal_spec(reserve, self.reserve),
    {
        decimal(reserve, self.reserve)
    }
}

/// Decimal places of a quoted spot price.
pub const PRICE_PLACES: u32 = 6;

/// A spot price in millionths, floored.
fn decimal_to_uint128(x: Decimal) -> (r: Option<u128>)
    requires
        x.wf(),
    ensures
        r == units_spec(Some(x), PRICE_PLACES),
{
    to_units(x, PRICE_PLACES)
}

/// A pricing strategy. `None` from any operation means that the fixed-point
/// arithmetic overflowed on that input.
pub trait Curve {
    /// The strategy's parameters are representable.
    spec fn valid(&self) -> bool;

    spec fn spot_price_spec(&self, supply: u128) -> Option<u128>;

    spec fn reserve_spec(&self, supply: u128) -> Option<u128>;

    spec fn supply_spec(&self, reserve: u128) -> Option<u128>;

    /// The spot price at a supply.
    fn spot_price(&self, supply: u128) -> (r: Option<u128>)
        requires
            self.valid(),
        ensures
            r == self.spot_price_spec(supply),
    ;

    /// The reserve paid in to reach a supply.
    fn reserve(&self, supply: u128) -> (r: Option<u128>)
        requires
            self.valid(),
        ensures
            r == self.reserve_spec(supply),
    ;

    /// The supply that a reserve buys.
    fn supply(&self, reserve: u128) -> (r: Option<u128>)
        requires
            self.valid(),
        ensures
            r == self.supply_spec(reserve),
    ;
}

/// One half.
pub open spec fn half() -> Decimal {
    Decimal { num: 5, scale: 1 }
}

/// One and a half.
pub open spec fn three_halves() -> Decimal {
    Decimal { num: 15, scale: 1 }
}

/// Three.
pub open spec fn three() -> Decimal {
    Decimal { num: 30, scale: 1 }
}

/// Constant: the spot price is always `value`.
#[derive(Clone, Copy, Debug, PartialEq, Eq)]
pub struct Constant {
    pub value: Decimal,
    pub normalize: DecimalPlaces,
}

impl Constant {
    pub fn new(value: Decimal, normalize: DecimalPlaces) -> (r: Self)
        ensures
            r.value == value,
            r.normalize == normalize,
    {
        Self { value, normalize }
    }
}

impl Curve for Constant {
    open spec fn valid(&self) -> bool {
        self.value.wf()
    }

    open spec fn spot_price_spec(&self, supply: u128) -> Option<u128> {
        units_spec(Some(self.value), PRICE_PLACES)
    }

    open spec fn reserve_spec(&self, supply: u128) -> Option<u128> {
        units_spec(
            mul_spec(decimal_spec(supply, self.normalize.supply), Some(self.value)),
            self.normalize.reserve,
        )
    }

    open spec fn supply_spec(&self, reserve: u128) -> Option<u128> {
        units_spec(
            div_spec(decimal_spec(reserve, self.normalize.reserve), Some(self.value)),
            self.normalize.supply,
        )
    }

    fn spot_price(&self, _supply: u128) -> (r: Option<u128>) {
        decimal_to_uint128(self.value)
    }

    fn reserve(&self, supply: u128) -> (r: Option<u128>) {
        let normalized = self.normalize.from_supply(supply)?;
        let reserve = decimal_mul(normalized, self.value)?;
        self.normalize.to_reserve(reserve)
    }

    fn supply(&self, reserve: u128) -> (r: Option<u128>) {
        let normalized = self.normalize.from_reserve(reserve)?;
        let supply = decimal_div(normalized, self.value)?;
        self.normalize.to_supply(supply)
    }
}

/// Linear: the spot price is `slope * supply`.
#[derive(Clone, Copy, Debug, PartialEq, Eq)]
pub struct Linear {
    pub slope: Decimal,
    pub normalize: DecimalPlaces,
}

impl Linear {
    pub fn new(slope: Decimal, normalize: DecimalPlaces) -> (r: Self)
        ensures
            r.slope == slope,
            r.normalize == normalize,
    {
        Self { slope, normalize }
    }
}

impl Curve for Linear {
    open spec fn valid(&self) -> bool {
        self.slope.wf()
    }

    open spec fn spot_price_spec(&self, supply: u128) -> Option<u128> {
        units_spec(
            mul_spec(decimal_spec(supply, self.normalize.supply), Some(self.slope)),
            PRICE_PLACES,
        )
    }

    open spec fn reserve_spec(&self, supply: u128) -> Option<u128> {
        let n = decimal_spec(supply, self.normalize.supply);
        units_spec(mul_spec(mul_spec(mul_spec(n, n), Some(self.slope)), Some(half())), self.normalize.reserve)
    }

    open spec fn supply_spec(&self, reserve: u128) -> Option<u128> {
        if reserve + reserve > u128::MAX {
            None
        } else {
            let n = decimal_spec((reserve + reserve) as u128, self.normalize.reserve);
            units_spec(sqrt_spec(div_spec(n, Some(self.slope))), self.normalize.supply)
        }
    }

    fn spot_price(&self, supply: u128) -> (r: Option<u128>) {
        let normalized = self.normalize.from_supply(supply)?;
        let out = decimal_mul(normalized, self.slope)?;
        decimal_to_uint128(out)
    }

    fn reserve(&self, supply: u128) -> (r: Option<u128>) {
        let normalized = self.normalize.from_supply(supply)?;
        let square = decimal_mul(normalized, normalized)?;
        let scaled = decimal_mul(square, self.slope)?;
        let reserve = decimal_mul(scaled, Decimal { num: 5, scale: 1 })?;
        self.normalize.to_reserve(reserve)
    }

    fn supply(&self, reserve: u128) -> (r: Option<u128>) {
        let doubled = reserve.checked_add(reserve)?;
        let normalized = self.normalize.from_reserve(doubled)?;
        let square = decimal_div(normalized, self.slope)?;
        let supply = square_root(square)?;
        self.normalize.to_supply(supply)
    }
}

/// SquareRoot: the spot price is `slope * supply^0.5`.
#[derive(Clone, Copy, Debug, PartialEq, Eq)]
pub struct SquareRoot {
    pub slope: Decimal,
    pub normalize: DecimalPlaces,
}

impl SquareRoot {
    pub fn new(slope: Decimal, normalize: DecimalPlaces) -> (r: Self)
        ensures
            r.slope == slope,
            r.normalize == normalize,
    {
        Self { slope, normalize }
    }
}

impl Curve for SquareRoot {
    open spec fn valid(&self) -> bool {
        self.slope.wf()
    }

    open spec fn spot_price_spec(&self, supply: u128) -> Option<u128> {
        let n = decimal_spec(supply, self.normalize.supply);
        units_spec(mul_spec(sqrt_spec(n), Some(self.slope)), PRICE_PLACES)
    }

    open spec fn reserve_spec(&self, supply: u128) -> Option<u128> {
        let n = decimal_spec(supply, self.normalize.supply);
        units_spec(
            div_spec(mul_spec(mul_spec(Some(self.slope), n), sqrt_spec(n)), Some(three_halves())),
            self.normalize.reserve,
        )
    }

    open spec fn supply_spec(&self, reserve: u128) -> Option<u128> {
        let n = decimal_spec(reserve, self.normalize.reserve);
        let base = div_spec(mul_spec(n, Some(three_halves())), Some(self.slope));
        units_spec(cbrt_spec(mul_spec(base, base)), self.normalize.supply)
    }

    fn spot_price(&self, supply: u128) -> (r: Option<u128>) {
        let square = self.normalize.from_supply(supply)?;
        let root = square_root(square)?;
        let out = decimal_mul(root, self.slope)?;
        decimal_to_uint128(out)
    }

    fn reserve(&self, supply: u128) -> (r: Option<u128>) {
        let normalized = self.normalize.from_supply(supply)?;
        let root = square_root(normalized)?;
        let scaled = decimal_mul(self.slope, normalized)?;
        let product = decimal_mul(scaled, root)?;
        let reserve = decimal_div(product, Decimal { num: 15, scale: 1 })?;
        self.normalize.to_reserve(reserve)
    }

    fn supply(&self, reserve: u128) -> (r: Option<u128>) {
        let normalized = self.normalize.from_reserve(reserve)?;
        let scaled = decimal_mul(normalized, Decimal { num: 15, scale: 1 })?;
        let base = decimal_div(scaled, self.slope)?;
        let squared = decimal_mul(base, base)?;
        let supply = cube_root(squared)?;
        self.normalize.to_supply(supply)
    }
}

/// Squared: the spot price is `slope * supply^2`.
#[derive(Clone, Copy, Debug, PartialEq, Eq)]
pub struct Squared {
    pub slope: Decimal,
    pub normalize: DecimalPlaces,
}

impl Squared {
    pub fn new(slope: Decimal, normalize: DecimalPlaces) -> (r: Self)
        ensures
            r.slope == slope,
            r.normalize == normalize,
    {
        Self { slope, normalize }
    }
}

impl Curve for Squared {
    open spec fn valid(&self) -> bool {
        self.slope.wf()
    }

    open spec fn spot_price_spec(&self, supply: u128) -> Option<u128> {
        let n = decimal_spec(supply, self.normalize.supply);
        units_spec(mul_spec(Some(self.slope), mul_spec(n, n)), PRICE_PLACES)
    }

    open spec fn reserve_spec(&self, supply: u128) -> Option<u128> {
        let n = decimal_spec(supply, self.normalize.supply);
        units_spec(
            div_spec(mul_spec(Some(self.slope), mul_spec(mul_spec(n, n), n)), Some(three())),
            self.normalize.reserve,
        )
    }

    open spec fn supply_spec(&self, reserve: u128) -> Option<u128> {
        let n = decimal_spec(reserve, self.normalize.reserve);
        units_spec(cbrt_spec(div_spec(mul_spec(n, Some(three())), Some(self.slope))), self.normalize.supply)
    }

    fn spot_price(&self, supply: u128) -> (r: Option<u128>) {
        let normalized = self.normalize.from_supply(supply)?;
        let raised = decimal_mul(normalized, normalized)?;
        let out = decimal_mul(self.slope, raised)?;
        decimal_to_uint128(out)
    }

    fn reserve(&self, supply: u128) -> (r: Option<u128>) {
        let normalized = self.normalize.from_supply(supply)?;
        let square = decimal_mul(normalized, normalized)?;
        let raised = decimal_mul(square, normalized)?;
        let scaled = decimal_mul(self.slope, raised)?;
        let reserve = decimal_div(scaled, Decimal { num: 30, scale: 1 })?;
        self.normalize.to_reserve(reserve)
    }

    fn supply(&self, reserve: u128) -> (r: Option<u128>) {
        let normalized = self.normalize.from_reserve(reserve)?;
        let scaled = decimal_mul(normalized, Decimal { num: 30, scale: 1 })?;
        let base = decimal_div(scaled, self.slope)?;
        let supply = cube_root(base)?;
        self.normalize.to_supply(supply)
    }
}

/// Number of breakpoints of the sigmoid table.
pub const SIGMOID_POINTS: usize = 26;

/// Supply at the last breakpoint of the sigmoid table.
pub const SIGMOID_LAST_SUPPLY: u128 = 200_000_000_000_000;

/// Reserve at the last breakpoint of the sigmoid table.
pub const SIGMOID_LAST_RESERVE: u128 = 4_618_183_039_950_000_000;

/// Breakpoint `i` of the sigmoid table: `(supply, spot_price, reserve)`, in
/// ascending order; indices past the end give the last breakpoint.
pub open spec fn sigmoid_point(i: int) -> (u128, u128, u128) {
    if i == 0 {
        (0, 0, 0)
    } else if i == 1 {
        (10_000_000_000_000, 100_000, 500_000_000_000)
    } else if i == 2 {
        (19_999_000_000_000, 200_000, 1_999_850_000_000)
    } else if i == 3 {
        (20_000_000_000_000, 80_000_000, 2_039_950_000_000)
    } else if i == 4 {
        (25_000_000_000_000, 120_000_000, 502_039_950_000_000)
    } else if i == 5 {
        (30_000_000_000_000, 180_000_000, 1_252_039_950_000_000)
    } else if i == 6 {
        (32_000_000_000_000, 280_000_000, 1_712_039_950_000_000)
    } else if i == 7 {
        (34_000_000_000_000, 378_000_000, 2_370_039_950_000_000)
    } else if i == 8 {
        (36_000_000_000_000, 504_000_000, 3_252_039_950_000_000)
    } else if i == 9 {
        (38_000_000_000_000, 651_000_000, 4_407_039_950_000_000)
    } else if i == 10 {
        (40_000_000_000_000, 1_000_000_000, 6_058_039_950_000_000)
    } else if i == 11 {
        (42_000_000_000_000, 1_500_000_000, 8_558_039_950_000_000)
    } else if i == 12 {
        (45_000_000_000_000, 2_500_000_000, 14_558_039_950_000_000)
    } else if i == 13 {
        (47_500_000_000_000, 4_000_000_000, 22_683_039_950_000_000)
    } else if i == 14 {
        (58_000_000_000_000, 15_000_000_000, 122_433_039_950_000_000)
    } else if i == 15 {
        (61_000_000_000_000, 18_000_000_000, 171_933_039_950_000_000)
    } else if i == 16 {
        (65_000_000_000_000, 22_000_000_000, 251_933_039_950_000_000)
    } else if i == 17 {
        (69_000_000_000_000, 25_000_000_000, 345_933_039_950_000_000)
    } else if i == 18 {
        (74_000_000_000_000, 27_500_000_000, 477_183_039_950_000_000)
    } else if i == 19 {
        (80_000_000_000_000, 29_500_000_000, 648_183_039_950_000_000)
    } else if i == 20 {
        (87_000_000_000_000, 31_000_000_000, 859_933_039_950_000_000)
    } else if i == 21 {
        (95_000_000_000_000, 32_000_000_000, 1_111_933_039_950_000_000)
    } else if i == 22 {
        (100_000_000_000_000, 32_500_000_000, 1_273_183_039_950_000_000)
    } else if i == 23 {
        (110_000_000_000_000, 33_000_000_000, 1_600_683_039_950_000_000)
    } else if i == 24 {
        (150_000_000_000_000, 33_500_000_000, 2_930_683_039_950_000_000)
    } else {
        (200_000_000_000_000, 34_000_000_000, 4_618_183_039_950_000_000)
    }
}

/// The first interval `(point(j).0, point(j + 1).0]`, for `j >= i`, that
/// holds `supply`; 0 when none does.
pub open spec fn supply_interval(supply: u128, i: int) -> int
    decreases 25 - i,
{
    if i < 0 || i >= 25 {
        0
    } else if sigmoid_point(i).0 < supply && supply <= sigmoid_point(i + 1).0 {
        i
    } else {
        supply_interval(supply, i + 1)
    }
}

/// The first interval `(point(j).2, point(j + 1).2]`, for `j >= i`, that
/// holds `reserve`; 0 when none does.
pub open spec fn reserve_interval(reserve: u128, i: int) -> int
    decreases 25 - i,
{
    if i < 0 || i >= 25 {
        0
    } else if sigmoid_point(i).2 < reserve && reserve <= sigmoid_point(i + 1).2 {
        i
    } else {
        reserve_interval(reserve, i + 1)
    }
}

/// Price at offset `x` into interval `i`: the start price plus the price
/// rise over the interval in proportion to `x`, multiplied before dividing
/// and floored.
pub open spec fn sigmoid_price_at(i: int, x: int) -> int {
    let (s_lo, p_lo, _) = sigmoid_point(i);
    let (s_hi, p_hi, _) = sigmoid_point(i + 1);
    p_lo + x * (p_hi - p_lo) / (s_hi - s_lo)
}

/// Reserve at offset `x` into interval `i`: the reserve at the interval's
/// start plus the trapezoid between the start price and the price at `x`
/// (prices are in millionths, so the area is divided by two million).
pub open spec fn sigmoid_reserve_at(i: int, x: int) -> int {
    let (_, p_lo, r_lo) = sigmoid_point(i);
    r_lo + x * (p_lo + sigmoid_price_at(i, x)) / 2_000_000
}

/// `x` is the largest offset into interval `i` whose reserve does not exceed
/// `reserve`: the trapezoid formula solved for the supply, floored.
pub open spec fn is_sigmoid_inverse(i: int, reserve: int, x: int) -> bool {
    let len = sigmoid_point(i + 1).0 - sigmoid_point(i).0;
    &&& 0 <= x <= len
    &&& sigmoid_reserve_at(i, x) <= reserve
    &&& (x == len || sigmoid_reserve_at(i, x + 1) > reserve)
}

/// The largest offset into interval `i` whose reserve does not exceed
/// `reserve`.
pub open spec fn sigmoid_inverse(i: int, reserve: int) -> int {
    choose|x: int| is_sigmoid_inverse(i, reserve, x)
}

/// Spot price at `supply` in interval `i`.
pub open spec fn sigmoid_interpolated_price(supply: u128, i: int) -> int {
    sigmoid_price_at(i, supply - sigmoid_point(i).0)
}

/// Reserve at `supply` in interval `i`.
pub open spec fn sigmoid_interpolated_reserve(supply: u128, i: int) -> int {
    sigmoid_reserve_at(i, supply - sigmoid_point(i).0)
}

/// Supply at `reserve` in interval `i`.
pub open spec fn sigmoid_interpolated_supply(reserve: u128, i: int) -> int {
    sigmoid_point(i).0 + sigmoid_inverse(i, reserve as int)
}

/// One row of the table: the trapezoid under interval `i`, at its two end
/// prices, is the reserve gained over it.
proof fn lemma_sigmoid_row(
    i: int,
    s_lo: u128,
    p_lo: u128,
    r_lo: u128,
    s_hi: u128,
    p_hi: u128,
    r_hi: u128,
)
    requires
        sigmoid_point(i) == (s_lo, p_lo, r_lo),
        sigmoid_point(i + 1) == (s_hi, p_hi, r_hi),
        (s_hi - s_lo) * (p_lo + p_hi) == 2_000_000 * (r_hi - r_lo),
    ensures
        (sigmoid_point(i + 1).0 - sigmoid_point(i).0) * (sigmoid_point(i).1 + sigmoid_point(i + 1).1)
            == 2_000_000 * (sigmoid_point(i + 1).2 - sigmoid_point(i).2),
{
}

/// Facts of each interval of the table: ascending supply and reserve,
/// non-decreasing and positive end prices, bounded values, and each
/// breakpoint's reserve equal to the trapezoid sum up to it.
pub proof fn lemma_sigmoid_interval(i: int)
    requires
        0 <= i < 25,
    ensures
        sigmoid_point(i).0 < sigmoid_point(i + 1).0 <= SIGMOID_LAST_SUPPLY,
        sigmoid_point(i).1 <= sigmoid_point(i + 1).1 <= 34_000_000_000,
        0 < sigmoid_point(i + 1).1,
        sigmoid_point(i + 1).0 - sigmoid_point(i).0 <= 50_000_000_000_000,
        sigmoid_point(i + 1).1 - sigmoid_point(i).1 <= 11_000_000_000,
        sigmoid_point(i).2 < sigmoid_point(i + 1).2 <= SIGMOID_LAST_RESERVE,
        (sigmoid_point(i + 1).0 - sigmoid_point(i).0) * (sigmoid_point(i).1 + sigmoid_point(i + 1).1)
            == 2_000_000 * (sigmoid_point(i + 1).2 - sigmoid_point(i).2),
        sigmoid_point(0) == (0u128, 0u128, 0u128),
        sigmoid_point(25).0 == SIGMOID_LAST_SUPPLY,
        sigmoid_point(25).2 == SIGMOID_LAST_RESERVE,
{
    if i == 0 {
        lemma_sigmoid_row(0, 0u128, 0u128, 0u128, 10_000_000_000_000u128, 100_000u128, 500_000_000_000u128);
    } else if i == 1 {
        lemma_sigmoid_row(1, 10_000_000_000_000u128, 100_000u128, 500_000_000_000u128, 19_999_000_000_000u128, 200_000u128, 1_999_850_000_000u128);
    } else if i == 2 {
        lemma_sigmoid_row(2, 19_999_000_000_000u128, 200_000u128, 1_999_850_000_000u128, 20_000_000_000_000u128, 80_000_000u128, 2_039_950_000_000u128);
    } else if i == 3 {
        lemma_sigmoid_row(3, 20_000_000_000_000u128, 80_000_000u128, 2_039_950_000_000u128, 25_000_000_000_000u128, 120_000_000u128, 502_039_950_000_000u128);
    } else if i == 4 {
        lemma_sigmoid_row(4, 25_000_000_000_000u128, 120_000_000u128, 502_039_950_000_000u128, 30_000_000_000_000u128, 180_000_000u128, 1_252_039_950_000_000u128);
    } else if i == 5 {
        lemma_sigmoid_row(5, 30_000_000_000_000u128, 180_000_000u128, 1_252_039_950_000_000u128, 32_000_000_000_000u128, 280_000_000u128, 1_712_039_950_000_000u128);
    } else if i == 6 {
        lemma_sigmoid_row(6, 32_000_000_000_000u128, 280_000_000u128, 1_712_039_950_000_000u128, 34_000_000_000_000u128, 378_000_000u128, 2_370_039_950_000_000u128);
    } else if i == 7 {
        lemma_sigmoid_row(7, 34_000_000_000_000u128, 378_000_000u128, 2_370_039_950_000_000u128, 36_000_000_000_000u128, 504_000_000u128, 3_252_039_950_000_000u128);
    } else if i == 8 {
        lemma_sigmoid_row(8, 36_000_000_000_000u128, 504_000_000u128, 3_252_039_950_000_000u128, 38_000_000_000_000u128, 651_000_000u128, 4_407_039_950_000_000u128);
    } else if i == 9 {
        lemma_sigmoid_row(9, 38_000_000_000_000u128, 651_000_000u128, 4_407_039_950_000_000u128, 40_000_000_000_000u128, 1_000_000_000u128, 6_058_039_950_000_000u128);
    } else if i == 10 {
        lemma_sigmoid_row(10, 40_000_000_000_000u128, 1_000_000_000u128, 6_058_039_950_000_000u128, 42_000_000_000_000u128, 1_500_000_000u128, 8_558_039_950_000_000u128);
    } else if i == 11 {
        lemma_sigmoid_row(11, 42_000_000_000_000u128, 1_500_000_000u128, 8_558_039_950_000_000u128, 45_000_000_000_000u128, 2_500_000_000u128, 14_558_039_950_000_000u128);
    } else if i == 12 {
        lemma_sigmoid_row(12, 45_000_000_000_000u128, 2_500_000_000u128, 14_558_039_950_000_000u128, 47_500_000_000_000u128, 4_000_000_000u128, 22_683_039_950_000_000u128);
    } else if i == 13 {
        lemma_sigmoid_row(13, 47_500_000_000_000u128, 4_000_000_000u128, 22_683_039_950_000_000u128, 58_000_000_000_000u128, 15_000_000_000u128, 122_433_039_950_000_000u128);
    } else if i == 14 {
        lemma_sigmoid_row(14, 58_000_000_000_000u128, 15_000_000_000u128, 122_433_039_950_000_000u128, 61_000_000_000_000u128, 18_000_000_000u128, 171_933_039_950_000_000u128);
    } else if i == 15 {
        lemma_sigmoid_row(15, 61_000_000_000_000u128, 18_000_000_000u128, 171_933_039_950_000_000u128, 65_000_000_000_000u128, 22_000_000_000u128, 251_933_039_950_000_000u128);
    } else if i == 16 {
        lemma_sigmoid_row(16, 65_000_000_000_000u128, 22_000_000_000u128, 251_933_039_950_000_000u128, 69_000_000_000_000u128, 25_000_000_000u128, 345_933_039_950_000_000u128);
    } else if i == 17 {
        lemma_sigmoid_row(17, 69_000_000_000_000u128, 25_000_000_000u128, 345_933_039_950_000_000u128, 74_000_000_000_000u128, 27_500_000_000u128, 477_183_039_950_000_000u128);
    } else if i == 18 {
        lemma_sigmoid_row(18, 74_000_000_000_000u128, 27_500_000_000u128, 477_183_039_950_000_000u128, 80_000_000_000_000u128, 29_500_000_000u128, 648_183_039_950_000_000u128);
    } else if i == 19 {
        lemma_sigmoid_row(19, 80_000_000_000_000u128, 29_500_000_000u128, 648_183_039_950_000_000u128, 87_000_000_000_000u128, 31_000_000_000u128, 859_933_039_950_000_000u128);
    } else if i == 20 {
        lemma_sigmoid_row(20, 87_000_000_000_000u128, 31_000_000_000u128, 859_933_039_950_000_000u128, 95_000_000_000_000u128, 32_000_000_000u128, 1_111_933_039_950_000_000u128);
    } else if i == 21 {
        lemma_sigmoid_row(21, 95_000_000_000_000u128, 32_000_000_000u128, 1_111_933_039_950_000_000u128, 100_000_000_000_000u128, 32_500_000_000u128, 1_273_183_039_950_000_000u128);
    } else if i == 22 {
        lemma_sigmoid_row(22, 100_000_000_000_000u128, 32_500_000_000u128, 1_273_183_039_950_000_000u128, 110_000_000_000_000u128, 33_000_000_000u128, 1_600_683_039_950_000_000u128);
    } else if i == 23 {
        lemma_sigmoid_row(23, 110_000_000_000_000u128, 33_000_000_000u128, 1_600_683_039_950_000_000u128, 150_000_000_000_000u128, 33_500_000_000u128, 2_930_683_039_950_000_000u128);
    } else if i == 24 {
        lemma_sigmoid_row(24, 150_000_000_000_000u128, 33_500_000_000u128, 2_930_683_039_950_000_000u128, 200_000_000_000_000u128, 34_000_000_000u128, 4_618_183_039_950_000_000u128);
    }
}

/// Sigmoid: prices follow a fixed table of breakpoints, interpolated linearly
/// in between; the slope parameter is carried but not used.
#[derive(Clone, Copy, Debug, PartialEq, Eq)]
pub struct Sigmoid {
    pub slope: Decimal,
    pub normalize: DecimalPlaces,
}

impl Sigmoid {
    pub fn new(slope: Decimal, normalize: DecimalPlaces) -> (r: Self)
        ensures
            r.slope == slope,
            r.normalize == normalize,
    {
        Self { slope, normalize }
    }
}

/// Breakpoint `i` of the sigmoid table.
fn sigmoid_point_at(i: usize) -> (r: (u128, u128, u128))
    requires
        i < SIGMOID_POINTS,
    ensures
        r == sigmoid_point(i as int),
{
    match i {
        0 => (0, 0, 0),
        1 => (10_000_000_000_000, 100_000, 500_000_000_000),
        2 => (19_999_000_000_000, 200_000, 1_999_850_000_000),
        3 => (20_000_000_000_000, 80_000_000, 2_039_950_000_000),
        4 => (25_000_000_000_000, 120_000_000, 502_039_950_000_000),
        5 => (30_000_000_000_000, 180_000_000, 1_252_039_950_000_000),
        6 => (32_000_000_000_000, 280_000_000, 1_712_039_950_000_000),
        7 => (34_000_000_000_000, 378_000_000, 2_370_039_950_000_000),
        8 => (36_000_000_000_000, 504_000_000, 3_252_039_950_000_000),
        9 => (38_000_000_000_000, 651_000_000, 4_407_039_950_000_000),
        10 => (40_000_000_000_000, 1_000_000_000, 6_058_039_950_000_000),
        11 => (42_000_000_000_000, 1_500_000_000, 8_558_039_950_000_000),
        12 => (45_000_000_000_000, 2_500_000_000, 14_558_039_950_000_000),
        13 => (47_500_000_000_000, 4_000_000_000, 22_683_039_950_000_000),
        14 => (58_000_000_000_000, 15_000_000_000, 122_433_039_950_000_000),
        15 => (61_000_000_000_000, 18_000_000_000, 171_933_039_950_000_000),
        16 => (65_000_000_000_000, 22_000_000_000, 251_933_039_950_000_000),
        17 => (69_000_000_000_000, 25_000_000_000, 345_933_039_950_000_000),
        18 => (74_000_000_000_000, 27_500_000_000, 477_183_039_950_000_000),
        19 => (80_000_000_000_000, 29_500_000_000, 648_183_039_950_000_000),
        20 => (87_000_000_000_000, 31_000_000_000, 859_933_039_950_000_000),
        21 => (95_000_000_000_000, 32_000_000_000, 1_111_933_039_950_000_000),
        22 => (100_000_000_000_000, 32_500_000_000, 1_273_183_039_950_000_000),
        23 => (110_000_000_000_000, 33_000_000_000, 1_600_683_039_950_000_000),
        24 => (150_000_000_000_000, 33_500_000_000, 2_930_683_039_950_000_000),
        _ => (200_000_000_000_000, 34_000_000_000, 4_618_183_039_950_000_000),
    }
}

/// Index of the interval that holds `supply`, by a scan from the start.
fn find_supply_interval(supply: u128) -> (r: usize)
    ensures
        r == supply_interval(supply, 0),
        r < 25,
        0 < supply <= SIGMOID_LAST_SUPPLY ==> sigmoid_point(r as int).0 < supply <= sigmoid_point(
            r + 1,
        ).0,
{
    let mut i: usize = 0;
    while i < SIGMOID_POINTS - 1
        invariant
            i <= 25,
            supply_interval(supply, 0) == supply_interval(supply, i as int),
            0 < supply <= SIGMOID_LAST_SUPPLY ==> sigmoid_point(i as int).0 < supply,
        decreases 25 - i,
    {
        let lo = sigmoid_point_at(i);
        let hi = sigmoid_point_at(i + 1);
        if supply > lo.0 && supply <= hi.0 {
            return i;
        }
        i = i + 1;
    }
    0
}

/// Index of the interval that holds `reserve`, by a scan from the start.
fn find_reserve_interval(reserve: u128) -> (r: usize)
    ensures
        r == reserve_interval(reserve, 0),
        r < 25,
        0 < reserve <= SIGMOID_LAST_RESERVE ==> sigmoid_point(r as int).2 < reserve
            <= sigmoid_point(r + 1).2,
{
    let mut i: usize = 0;
    while i < SIGMOID_POINTS - 1
        invariant
            i <= 25,
            reserve_interval(reserve, 0) == reserve_interval(reserve, i as int),
            0 < reserve <= SIGMOID_LAST_RESERVE ==> sigmoid_point(i as int).2 < reserve,
        decreases 25 - i,
    {
        let lo = sigmoid_point_at(i);
        let hi = sigmoid_point_at(i + 1);
        if reserve > lo.2 && reserve <= hi.2 {
            return i;
        }
        i = i + 1;
    }
    0
}

impl Curve for Sigmoid {
    open spec fn valid(&self) -> bool {
        true
    }

    /// Beyond the last breakpoint the price is the largest value (no further
    /// buying along the table); at zero supply it is the minimal price of one
    /// millionth; in between it is interpolated.
    open spec fn spot_price_spec(&self, supply: u128) -> Option<u128> {
        if supply > SIGMOID_LAST_SUPPLY {
            Some(u128::MAX)
        } else if supply == 0 {
            Some(1)
        } else {
            Some(sigmoid_interpolated_price(supply, supply_interval(supply, 0)) as u128)
        }
    }

    /// Zero at zero supply, clamped to the last breakpoint's reserve beyond
    /// it, interpolated in between.
    open spec fn reserve_spec(&self, supply: u128) -> Option<u128> {
        if supply == 0 {
            Some(0)
        } else if supply > SIGMOID_LAST_SUPPLY {
            Some(SIGMOID_LAST_RESERVE)
        } else {
            Some(sigmoid_interpolated_reserve(supply, supply_interval(supply, 0)) as u128)
        }
    }

    /// Zero for a zero reserve and for any reserve beyond the last
    /// breakpoint's; interpolated in between.
    open spec fn supply_spec(&self, reserve: u128) -> Option<u128> {
        if reserve == 0 || reserve > SIGMOID_LAST_RESERVE {
            Some(0)
        } else {
            Some(sigmoid_interpolated_supply(reserve, reserve_interval(reserve, 0)) as u128)
        }
    }

    fn spot_price(&self, supply: u128) -> (r: Option<u128>) {
        if supply > SIGMOID_LAST_SUPPLY {
            return Some(u128::MAX);
        } else if supply == 0 {
            proof {
                reveal_with_fuel(pow10, 7);
                assert(pow10(6) == 1_000_000);
                assert(1_000_000nat / 1_000_000nat == 1);
            }
            return decimal_to_uint128(Decimal { num: 1, scale: 6 });
        }
        let index = find_supply_interval(supply);
        let lo = sigmoid_point_at(index);
        Some(sigmoid_price_at_offset(index, supply - lo.0))
    }

    fn reserve(&self, supply: u128) -> (r: Option<u128>) {
        if supply == 0 {
            return Some(0);
        } else if supply > SIGMOID_LAST_SUPPLY {
            return Some(SIGMOID_LAST_RESERVE);
        }
        let index = find_supply_interval(supply);
        let lo = sigmoid_point_at(index);
        Some(sigmoid_reserve_at_offset(index, supply - lo.0))
    }

    fn supply(&self, reserve: u128) -> (r: Option<u128>) {
        if reserve == 0 || reserve > SIGMOID_LAST_RESERVE {
            return Some(0);
        }
        let index = find_reserve_interval(reserve);
        proof {
            lemma_sigmoid_interval(index as int);
        }
        let lo = sigmoid_point_at(index);
        let offset = invert_sigmoid_reserve(index, reserve);
        proof {
            lemma_sigmoid_inverse(index as int, reserve as int, offset as int);
        }
        Some(lo.0 + offset)
    }
}

/// Price at offset `x` into interval `i`.
fn sigmoid_price_at_offset(i: usize, x: u128) -> (r: u128)
    requires
        i < 25,
        x <= sigmoid_point(i + 1).0 - sigmoid_point(i as int).0,
    ensures
        r == sigmoid_price_at(i as int, x as int),
        r <= sigmoid_point(i + 1).1,
{
    proof {
        lemma_sigmoid_interval(i as int);
        lemma_sigmoid_at_monotonic(i as int, x as int, x as int);
    }
    let lo = sigmoid_point_at(i);
    let hi = sigmoid_point_at(i + 1);
    let rise = hi.1 - lo.1;
    let len = hi.0 - lo.0;
    assert(x * rise <= 50_000_000_000_000 * 11_000_000_000) by (nonlinear_arith)
        requires
            x <= len <= 50_000_000_000_000,
            rise <= 11_000_000_000,
    ;
    lo.1 + x * rise / len
}

/// Reserve at offset `x` into interval `i`.
fn sigmoid_reserve_at_offset(i: usize, x: u128) -> (r: u128)
    requires
        i < 25,
        x <= sigmoid_point(i + 1).0 - sigmoid_point(i as int).0,
    ensures
        r == sigmoid_reserve_at(i as int, x as int),
{
    proof {
        lemma_sigmoid_interval(i as int);
        lemma_sigmoid_at_monotonic(i as int, x as int, x as int);
    }
    let lo = sigmoid_point_at(i);
    let price = sigmoid_price_at_offset(i, x);
    assert(x * (lo.1 + price) <= 50_000_000_000_000 * 68_000_000_000) by (nonlinear_arith)
        requires
            x <= 50_000_000_000_000,
            lo.1 + price <= 68_000_000_000,
    ;
    lo.2 + x * (lo.1 + price) / 2_000_000
}

/// The largest offset into interval `i` whose reserve does not exceed
/// `reserve`, by binary search over the interval.
fn invert_sigmoid_reserve(i: usize, reserve: u128) -> (x: u128)
    requires
        i < 25,
        sigmoid_point(i as int).2 < reserve <= sigmoid_point(i + 1).2,
    ensures
        is_sigmoid_inverse(i as int, reserve as int, x as int),
{
    proof {
        lemma_sigmoid_interval(i as int);
    }
    let lo_pt = sigmoid_point_at(i);
    let hi_pt = sigmoid_point_at(i + 1);
    let len = hi_pt.0 - lo_pt.0;
    proof {
        lemma_sigmoid_at_monotonic(i as int, 0, len as int);
        assert(0 * (lo_pt.1 + sigmoid_price_at(i as int, 0)) == 0);
    }
    let mut lo: u128 = 0;
    let mut hi: u128 = len;
    while lo < hi
        invariant
            i < 25,
            len == sigmoid_point(i + 1).0 - sigmoid_point(i as int).0,
            lo <= hi <= len,
            sigmoid_reserve_at(i as int, lo as int) <= reserve,
            hi == len || sigmoid_reserve_at(i as int, hi + 1) > reserve,
        decreases hi - lo,
    {
        let mid = lo + (hi - lo + 1) / 2;
        if sigmoid_reserve_at_offset(i, mid) <= reserve {
            lo = mid;
        } else {
            hi = mid - 1;
        }
    }
    lo
}

/// Within interval `i`, price and reserve grow with the offset, the price
/// stays within the end prices, and the reserve within the end reserves.
proof fn lemma_sigmoid_at_monotonic(i: int, x: int, y: int)
    requires
        0 <= i < 25,
        0 <= x <= y <= sigmoid_point(i + 1).0 - sigmoid_point(i).0,
    ensures
        sigmoid_point(i).1 <= sigmoid_price_at(i, x) <= sigmoid_price_at(i, y) <= sigmoid_point(i + 1).1,
        sigmoid_point(i).2 <= sigmoid_reserve_at(i, x) <= sigmoid_reserve_at(i, y) <= sigmoid_point(
            i + 1,
        ).2,
{
    lemma_sigmoid_interval(i);
    let (s_lo, p_lo, r_lo) = sigmoid_point(i);
    let (s_hi, p_hi, r_hi) = sigmoid_point(i + 1);
    let len = s_hi - s_lo;
    let a = p_hi - p_lo;
    assert(0 <= x * a / len <= y * a / len <= len * a / len && len * a / len == a) by (nonlinear_arith)
        requires
            0 <= x <= y <= len,
            len >= 1,
            a >= 0,
    ;
    let px = sigmoid_price_at(i, x);
    let py = sigmoid_price_at(i, y);
    let pl = sigmoid_price_at(i, len);
    assert(pl == p_hi);
    assert(0 <= x * (p_lo + px) <= y * (p_lo + py) <= len * (p_lo + pl)) by (nonlinear_arith)
        requires
            0 <= x <= y <= len,
            0 <= p_lo <= px <= py <= pl,
    ;
    assert(x * (p_lo + px) / 2_000_000 <= y * (p_lo + py) / 2_000_000 <= len * (p_lo + pl)
        / 2_000_000 && 0 <= x * (p_lo + px) / 2_000_000) by (nonlinear_arith)
        requires
            0 <= x * (p_lo + px) <= y * (p_lo + py) <= len * (p_lo + pl),
    ;
    assert(len * (p_lo + pl) == 2_000_000 * (r_hi - r_lo));
    assert((2_000_000 * (r_hi - r_lo)) / 2_000_000 == r_hi - r_lo) by (nonlinear_arith);
}

/// The largest offset whose reserve does not exceed `reserve` is unique.
proof fn lemma_sigmoid_inverse(i: int, reserve: int, x: int)
    requires
        0 <= i < 25,
        is_sigmoid_inverse(i, reserve, x),
    ensures
        sigmoid_inverse(i, reserve) == x,
{
    let c = sigmoid_inverse(i, reserve);
    assert(is_sigmoid_inverse(i, reserve, c));
    if c < x {
        lemma_sigmoid_at_monotonic(i, c + 1, x);
    } else if x < c {
        lemma_sigmoid_at_monotonic(i, x + 1, c);
    }
}

proof fn lemma_sigmoid_ascending(k: int, l: int)
    requires
        0 <= k <= l <= 25,
    ensures
        sigmoid_point(k).0 <= sigmoid_point(l).0,
        sigmoid_point(k).2 <= sigmoid_point(l).2,
    decreases l - k,
{
    if k < l {
        lemma_sigmoid_ascending(k, l - 1);
        lemma_sigmoid_interval(l - 1);
    }
}

/// Within interval `i`, the interpolated reserve lies between the
/// breakpoints' reserves and grows with the supply.
proof fn lemma_sigmoid_reserve_in_interval(s: u128, t: u128, i: int)
    requires
        0 <= i < 25,
        sigmoid_point(i).0 < s <= t <= sigmoid_point(i + 1).0,
    ensures
        sigmoid_point(i).2 <= sigmoid_interpolated_reserve(s, i),
        sigmoid_interpolated_reserve(s, i) <= sigmoid_interpolated_reserve(t, i),
        sigmoid_interpolated_reserve(t, i) <= sigmoid_point(i + 1).2,
{
    lemma_sigmoid_at_monotonic(i, s - sigmoid_point(i).0, t - sigmoid_point(i).0);
}

/// The interval a supply in the table's domain falls in.
proof fn lemma_supply_interval(s: u128)
    requires
        0 < s <= SIGMOID_LAST_SUPPLY,
    ensures
        0 <= supply_interval(s, 0) < 25,
        sigmoid_point(supply_interval(s, 0)).0 < s <= sigmoid_point(supply_interval(s, 0) + 1).0,
{
    lemma_supply_interval_from(s, 0);
}

proof fn lemma_supply_interval_from(s: u128, i: int)
    requires
        0 <= i < 25,
        sigmoid_point(i).0 < s <= SIGMOID_LAST_SUPPLY,
    ensures
        i <= supply_interval(s, i) < 25,
        sigmoid_point(supply_interval(s, i)).0 < s <= sigmoid_point(supply_interval(s, i) + 1).0,
    decreases 25 - i,
{
    lemma_sigmoid_interval(i);
    if !(sigmoid_point(i).0 < s && s <= sigmoid_point(i + 1).0) {
        lemma_sigmoid_interval(24);
        if i + 1 < 25 {
            lemma_supply_interval_from(s, i + 1);
        }
    }
}

/// The sigmoid's reserve never decreases as the supply grows, over the whole
/// range of supplies (it is zero at zero and constant past the table); its
/// spot price past the table is the largest value.
pub proof fn sigmoid_monotonic(curve: Sigmoid, s: u128, t: u128)
    requires
        s <= t,
    ensures
        curve.reserve_spec(s)->0 <= curve.reserve_spec(t)->0,
        t > SIGMOID_LAST_SUPPLY ==> curve.spot_price_spec(t) == Some(u128::MAX),
{
    if s > 0 && s <= SIGMOID_LAST_SUPPLY {
        lemma_supply_interval(s);
        let i = supply_interval(s, 0);
        lemma_sigmoid_reserve_in_interval(s, s, i);
        if t > SIGMOID_LAST_SUPPLY {
            lemma_sigmoid_ascending(i + 1, 25);
        } else {
            lemma_supply_interval(t);
            let j = supply_interval(t, 0);
            lemma_sigmoid_reserve_in_interval(t, t, j);
            if i == j {
                lemma_sigmoid_reserve_in_interval(s, t, i);
            } else if i < j {
                lemma_sigmoid_ascending(i + 1, j);
            } else {
                lemma_sigmoid_ascending(j + 1, i);
            }
        }
    }
}

proof fn lemma_mul_div_cancel(x: int, m: int)
    requires
        x >= 0,
        m >= 1,
    ensures
        (x * m) / m == x,
        (x * m) % m == 0,
        x <= x * m,
{
    assert((x * m) / m == x && (x * m) % m == 0 && x <= x * m) by (nonlinear_arith)
        requires
            x >= 0,
            m >= 1,
    ;
}

/// Round trip of a Constant curve with a positive price whose reserve
/// places are at least its supply places plus the price's scale, at any
/// supply whose reserve in minor units times `10^reserve places` stays within
/// 96 bits: every step is then exact, and the supply bought by the reserve of
/// `s` is `s`.
pub proof fn constant_round_trip(c: Constant, s: u128)
    requires
        c.value.wf(),
        c.value.num >= 1,
        c.normalize.supply + c.value.scale <= c.normalize.reserve <= MAX_SCALE,
        s * c.value.num * pow10(c.normalize.reserve as nat) <= MAX_MANTISSA,
    ensures
        c.reserve_spec(s) matches Some(r) && c.supply_spec(r) == Some(s),
{
    let v = c.value.num as int;
    let ds = c.normalize.supply;
    let dr = c.normalize.reserve;
    let vs = c.value.scale;
    let e = (dr - ds - vs) as nat;
    let big_f = pow10(dr as nat) as int;
    let big_d = pow10((ds + vs) as nat) as int;
    let big_e = pow10(e) as int;
    let big_g = pow10(ds as nat) as int;
    lemma_pow10_add((ds + vs) as nat, e);
    lemma_pow10_add(ds as nat, e);
    lemma_pow10_monotonic(ds as nat, (ds + vs) as nat);
    lemma_pow10_positive(e);
    lemma_pow10_positive(ds as nat);
    lemma_pow10_positive((ds + vs) as nat);
    assert(big_f == big_d * big_e);
    assert(pow10((dr - vs) as nat) == big_g * big_e);
    lemma_constant_reserve_exact(c, s);
    let se = s * big_e;
    assert(s * v * big_f == (se * v) * big_d && (s * v * big_f) / big_d == se * v) by (nonlinear_arith)
        requires
            big_f == big_d * big_e,
            se == s * big_e,
            big_d >= 1,
    ;
    let r = (se * v) as u128;
    assert(se * v <= s * v * big_f) by (nonlinear_arith)
        requires
            s * v * big_f == (se * v) * big_d,
            big_d >= 1,
            se * v >= 0,
    ;
    assert(se * big_g <= s * v * big_f) by (nonlinear_arith)
        requires
            se == s * big_e,
            big_f == big_d * big_e,
            1 <= big_g <= big_d,
            v >= 1,
            s >= 0,
            big_e >= 1,
    ;
    lemma_mul_div_cancel(se, v);
    assert(big_g * big_e >= 1) by (nonlinear_arith)
        requires
            big_g >= 1,
            big_e >= 1,
    ;
    lemma_mul_div_cancel(s as int, big_g * big_e);
    assert(se * big_g == s * (big_g * big_e)) by (nonlinear_arith)
        requires
            se == s * big_e,
    ;
    assert(decimal_spec(r, dr) == Some(Decimal { num: r, scale: dr }));
    let factor = Decimal { num: big_g as u128, scale: 0 };
    if s != 0 {
        assert(se >= 1 && se * v >= 1) by (nonlinear_arith)
            requires
                se == s * big_e,
                s >= 1,
                big_e >= 1,
                v >= 1,
        ;
        assert(big_g <= se * big_g) by (nonlinear_arith)
            requires
                se >= 1,
                big_g >= 1,
        ;
        let q = Decimal { num: se as u128, scale: (dr - vs) as u32 };
        assert(decimal_div_spec(Decimal { num: r, scale: dr }, c.value) == Some(q));
        assert(decimal_mul_spec(q, factor) == Some(
            Decimal { num: (se * big_g) as u128, scale: q.scale },
        ));
    } else {
        assert(se == 0 && se * v == 0) by (nonlinear_arith)
            requires
                se == s * big_e,
                s == 0,
        ;
        assert(decimal_div_spec(Decimal { num: r, scale: dr }, c.value) == Some(
            Decimal { num: 0, scale: 0 },
        ));
        assert(decimal_mul_spec(Decimal { num: 0, scale: 0 }, factor) == Some(
            Decimal { num: 0, scale: 0 },
        ));
    }
}

/// A Constant curve at a supply where every fixed-point step is exact (the
/// price is positive, supply places plus price scale stay within 28, and the
/// reserve in minor units times `10^reserve places` fits in 96 bits): the
/// reserve is `supply * price`, floored to reserve minor units.
proof fn lemma_constant_reserve_exact(c: Constant, s: u128)
    requires
        c.value.wf(),
        c.value.num >= 1,
        c.normalize.supply + c.value.scale <= MAX_SCALE,
        c.normalize.reserve <= MAX_SCALE,
        s * c.value.num * pow10(c.normalize.reserve as nat) <= MAX_MANTISSA,
    ensures
        c.reserve_spec(s) == Some(
            ((s * c.value.num * pow10(c.normalize.reserve as nat)) / (pow10(
                (c.normalize.supply + c.value.scale) as nat,
            ) as int)) as u128,
        ),
{
    let v = c.value.num as int;
    let ds = c.normalize.supply;
    let f = pow10(c.normalize.reserve as nat) as int;
    let d = pow10((ds + c.value.scale) as nat) as int;
    lemma_pow10_positive(c.normalize.reserve as nat);
    lemma_pow10_positive((ds + c.value.scale) as nat);
    assert(s <= s * v && s * v <= s * v * f) by (nonlinear_arith)
        requires
            v >= 1,
            f >= 1,
            s >= 0,
    ;
    let factor = Decimal { num: f as u128, scale: 0 };
    if s != 0 {
        assert(decimal_spec(s, ds) == Some(Decimal { num: s, scale: ds }));
        let p = Decimal { num: (s * v) as u128, scale: (ds + c.value.scale) as u32 };
        assert(decimal_mul_spec(Decimal { num: s, scale: ds }, c.value) == Some(p));
        assert(f <= s * v * f) by (nonlinear_arith)
            requires
                s * v >= 1,
                f >= 1,
        ;
        assert(decimal_mul_spec(p, factor) == Some(
            Decimal { num: (s * v * f) as u128, scale: (ds + c.value.scale) as u32 },
        ));
        assert((s * v * f) / d <= s * v * f) by (nonlinear_arith)
            requires
                d >= 1,
                s * v * f >= 0,
        ;
    } else {
        assert(decimal_mul_spec(Decimal { num: s, scale: ds }, c.value) == Some(
            Decimal { num: 0, scale: 0 },
        ));
        assert(decimal_mul_spec(Decimal { num: 0, scale: 0 }, factor) == Some(
            Decimal { num: 0, scale: 0 },
        ));
        assert(s * v * f == 0) by (nonlinear_arith)
            requires
                s == 0,
        ;
        assert(0int / d == 0);
    }
}

/// On a Constant curve with a positive price, within the range where every
/// fixed-point step is exact, the reserve never decreases as the supply
/// grows, and strictly grows when one supply unit costs at least one reserve
/// unit (`price * 10^reserve places >= 10^(supply places + price scale)`).
/// Below that, small steps can floor to the same reserve.
pub proof fn constant_monotonic(c: Constant, s: u128, t: u128)
    requires
        c.value.wf(),
        c.value.num >= 1,
        c.normalize.supply + c.value.scale <= MAX_SCALE,
        c.normalize.reserve <= MAX_SCALE,
        s <= t,
        t * c.value.num * pow10(c.normalize.reserve as nat) <= MAX_MANTISSA,
    ensures
        c.reserve_spec(s)->0 <= c.reserve_spec(t)->0,
        s < t && c.value.num * pow10(c.normalize.reserve as nat) >= pow10(
            (c.normalize.supply + c.value.scale) as nat,
        ) ==> c.reserve_spec(s)->0 < c.reserve_spec(t)->0,
{
    let v = c.value.num as int;
    let f = pow10(c.normalize.reserve as nat) as int;
    let d = pow10((c.normalize.supply + c.value.scale) as nat) as int;
    lemma_pow10_positive(c.normalize.reserve as nat);
    lemma_pow10_positive((c.normalize.supply + c.value.scale) as nat);
    assert(s * v * f <= t * v * f) by (nonlinear_arith)
        requires
            s <= t,
            v >= 1,
            f >= 1,
            s >= 0,
    ;
    assert((s * v * f) / d <= (t * v * f) / d) by (nonlinear_arith)
        requires
            0 <= s * v * f <= t * v * f,
            d >= 1,
    ;
    if s < t && v * f >= d {
        let w = v * f;
        assert(s * v * f == s * w && t * v * f == t * w) by (nonlinear_arith)
            requires
                w == v * f,
        ;
        assert(s * w + w <= t * w) by (nonlinear_arith)
            requires
                s < t,
                w >= 0,
        ;
        assert((s * v * f) / d < (t * v * f) / d) by (nonlinear_arith)
            requires
                s * v * f + d <= t * v * f,
                s * v * f >= 0,
                d >= 1,
        ;
    }
    lemma_constant_reserve_exact(c, s);
    lemma_constant_reserve_exact(c, t);
}

/// A Linear curve with a whole-number slope and no decimal places, at a
/// supply whose scaled square stays within 96 bits: the reserve is half the
/// slope times the supply squared, floored.
proof fn lemma_linear_reserve(c: Linear, s: u128)
    requires
        c.slope.wf(),
        c.slope.scale == 0,
        c.slope.num >= 1,
        c.normalize.supply == 0,
        c.normalize.reserve == 0,
        s * s * c.slope.num * 5 <= MAX_MANTISSA,
    ensures
        c.reserve_spec(s) == Some(((s * s * c.slope.num * 5) / 10) as u128),
{
    reveal_with_fuel(pow10, 2);
    assert(s * s * c.slope.num * 5 * 1 == s * s * c.slope.num * 5);
    lemma_linear_reserve_exact(c, s);
}

/// A Linear curve at a supply where every fixed-point step is exact (the
/// slope is positive, twice the supply places plus the slope scale plus one
/// stay within 28, and the scaled square fits in 96 bits): the reserve is
/// half the slope times the supply squared, floored to reserve minor units.
proof fn lemma_linear_reserve_exact(c: Linear, s: u128)
    requires
        c.slope.wf(),
        c.slope.num >= 1,
        2 * c.normalize.supply + c.slope.scale + 1 <= MAX_SCALE,
        c.normalize.reserve <= MAX_SCALE,
        s * s * c.slope.num * 5 * pow10(c.normalize.reserve as nat) <= MAX_MANTISSA,
    ensures
        c.reserve_spec(s) == Some(
            ((s * s * c.slope.num * 5 * pow10(c.normalize.reserve as nat)) / (pow10(
                (2 * c.normalize.supply + c.slope.scale + 1) as nat,
            ) as int)) as u128,
        ),
{
    let k = c.slope.num as int;
    let ds = c.normalize.supply;
    let f = pow10(c.normalize.reserve as nat) as int;
    let d = pow10((2 * ds + c.slope.scale + 1) as nat) as int;
    lemma_pow10_positive(c.normalize.reserve as nat);
    lemma_pow10_positive((2 * ds + c.slope.scale + 1) as nat);
    assert(s <= s * s || s == 0) by (nonlinear_arith)
        requires
            s >= 0,
    ;
    assert(s * s <= s * s * k && s * s * k <= s * s * k * 5 && s * s * k * 5 <= s * s * k * 5 * f)
        by (nonlinear_arith)
        requires
            k >= 1,
            f >= 1,
            s >= 0,
    ;
    let factor = Decimal { num: f as u128, scale: 0 };
    if s != 0 {
        assert(s * s >= 1 && s <= s * s) by (nonlinear_arith)
            requires
                s >= 1,
        ;
        let n = Decimal { num: s, scale: ds };
        let sq = Decimal { num: (s * s) as u128, scale: (2 * ds) as u32 };
        let sk = Decimal { num: (s * s * k) as u128, scale: (2 * ds + c.slope.scale) as u32 };
        let h = Decimal {
            num: (s * s * k * 5) as u128,
            scale: (2 * ds + c.slope.scale + 1) as u32,
        };
        assert(decimal_spec(s, ds) == Some(n));
        assert(decimal_mul_spec(n, n) == Some(sq));
        assert(decimal_mul_spec(sq, c.slope) == Some(sk));
        assert(decimal_mul_spec(sk, half()) == Some(h));
        assert(f <= s * s * k * 5 * f) by (nonlinear_arith)
            requires
                s * s * k * 5 >= 1,
                f >= 1,
        ;
        assert(decimal_mul_spec(h, factor) == Some(
            Decimal { num: (s * s * k * 5 * f) as u128, scale: h.scale },
        ));
        assert((s * s * k * 5 * f) / d <= s * s * k * 5 * f) by (nonlinear_arith)
            requires
                d >= 1,
                s * s * k * 5 * f >= 0,
        ;
    } else {
        let z = Decimal { num: 0, scale: 0 };
        assert(decimal_mul_spec(Decimal { num: 0, scale: ds }, Decimal { num: 0, scale: ds })
            == Some(z));
        assert(decimal_mul_spec(z, c.slope) == Some(z));
        assert(decimal_mul_spec(z, half()) == Some(z));
        assert(decimal_mul_spec(z, factor) == Some(z));
        assert(s * s * k * 5 * f == 0) by (nonlinear_arith)
            requires
                s == 0,
        ;
        assert(0int / d == 0);
    }
}

/// On a Linear curve with a positive slope, within the range where every
/// fixed-point step is exact, the reserve never decreases as the supply
/// grows. From a supply of one unit on it strictly grows when fifteen times
/// the slope's mantissa times `10^reserve places` reaches
/// `10^(2 * supply places + slope scale + 1)` (a step of one unit then adds
/// at least one reserve unit); below that, or from zero to one unit, small
/// steps can floor to the same reserve.
pub proof fn linear_monotonic(c: Linear, s: u128, t: u128)
    requires
        c.slope.wf(),
        c.slope.num >= 1,
        2 * c.normalize.supply + c.slope.scale + 1 <= MAX_SCALE,
        c.normalize.reserve <= MAX_SCALE,
        s <= t,
        t * t * c.slope.num * 5 * pow10(c.normalize.reserve as nat) <= MAX_MANTISSA,
    ensures
        c.reserve_spec(s)->0 <= c.reserve_spec(t)->0,
        1 <= s < t && 15 * c.slope.num * pow10(c.normalize.reserve as nat) >= pow10(
            (2 * c.normalize.supply + c.slope.scale + 1) as nat,
        ) ==> c.reserve_spec(s)->0 < c.reserve_spec(t)->0,
{
    let k = c.slope.num as int;
    let f = pow10(c.normalize.reserve as nat) as int;
    let d = pow10((2 * c.normalize.supply + c.slope.scale + 1) as nat) as int;
    lemma_pow10_positive(c.normalize.reserve as nat);
    lemma_pow10_positive((2 * c.normalize.supply + c.slope.scale + 1) as nat);
    let x = s * s * k * 5 * f;
    let y = t * t * k * 5 * f;
    assert(0 <= x <= y) by (nonlinear_arith)
        requires
            x == s * s * k * 5 * f,
            y == t * t * k * 5 * f,
            0 <= s <= t,
            k >= 1,
            f >= 1,
    ;
    assert(x / d <= y / d) by (nonlinear_arith)
        requires
            0 <= x <= y,
            d >= 1,
    ;
    if 1 <= s < t && 15 * k * f >= d {
        assert(x + 15 * k * f <= y) by (nonlinear_arith)
            requires
                x == s * s * k * 5 * f,
                y == t * t * k * 5 * f,
                1 <= s < t,
                k >= 1,
                f >= 1,
        ;
        assert(x / d < y / d) by (nonlinear_arith)
            requires
                x + d <= y,
                x >= 0,
                d >= 1,
        ;
    }
    assert(s * s * k * 5 * f <= y);
    lemma_linear_reserve_exact(c, s);
    lemma_linear_reserve_exact(c, t);
}

/// Round trip of a Linear curve with slope one and no decimal places, at a
/// supply whose square scaled by `10^12` stays within 96 bits: the supply
/// bought by the reserve of `s` is `s` or one unit less.
pub proof fn linear_round_trip(c: Linear, s: u128)
    requires
        c.slope == (Decimal { num: 1, scale: 0 }),
        c.normalize.supply == 0,
        c.normalize.reserve == 0,
        s * s * 1_000_000_000_000 <= MAX_MANTISSA,
    ensures
        c.reserve_spec(s) matches Some(r) && c.supply_spec(r) matches Some(back) && s - 1 <= back
            <= s,
{
    let x = s * s;
    assert(x <= x * 5 && x * 5 <= x * 1_000_000_000_000) by (nonlinear_arith)
        requires
            x >= 0,
    ;
    lemma_linear_reserve(c, s);
    let r = ((x * 1 * 5) / 10) as u128;
    assert((x * 1 * 5) / 10 == x / 2);
    let two_r = (r + r) as u128;
    assert(two_r == x || two_r == x - 1);
    reveal_with_fuel(pow10, 7);
    assert(pow10(6) == 1_000_000);
    let root = if two_r == x { s as nat } else { (s - 1) as nat };
    if two_r == x {
        assert(is_floor_sqrt(s as nat, x as nat)) by (nonlinear_arith)
            requires
                x == s * s,
                s >= 0,
        ;
    } else {
        assert(s >= 1) by (nonlinear_arith)
            requires
                x == s * s,
                two_r == x - 1,
                two_r >= 0,
                s >= 0,
        ;
        assert(is_floor_sqrt((s - 1) as nat, (x - 1) as nat)) by (nonlinear_arith)
            requires
                x == s * s,
                s >= 1,
        ;
    }
    let big = two_r * 1_000_000_000_000;
    lemma_floor_sqrt_exists(big as nat);
    let q = floor_sqrt(big as nat);
    assert(1_000_000nat * 1_000_000nat == 1_000_000_000_000nat);
    lemma_floor_sqrt_scaled(root, q, two_r as nat, 1_000_000);
    let one = Decimal { num: 1, scale: 0 };
    let scale_up = Decimal { num: 1_000_000_000_000, scale: 0 };
    assert(decimal_spec(two_r, 0) == Some(Decimal { num: two_r, scale: 0 }));
    if two_r != 0 {
        assert(two_r % 1 == 0 && two_r / 1 == two_r);
        assert(decimal_div_spec(Decimal { num: two_r, scale: 0 }, c.slope) == Some(
            Decimal { num: two_r, scale: 0 },
        ));
        assert(decimal_mul_spec(Decimal { num: two_r, scale: 0 }, scale_up) == Some(
            Decimal { num: big as u128, scale: 0 },
        ));
        assert(big <= x * 1_000_000_000_000);
        assert(pow10(0) == 1);
        assert(big / 1 == big);
        assert(Decimal { num: big as u128, scale: 0 }.floor_spec() == big);
    } else {
        assert(decimal_div_spec(Decimal { num: two_r, scale: 0 }, c.slope) == Some(
            Decimal { num: 0, scale: 0 },
        ));
        assert(decimal_mul_spec(Decimal { num: 0, scale: 0 }, scale_up) == Some(
            Decimal { num: 0, scale: 0 },
        ));
        assert(Decimal { num: 0, scale: 0 }.floor_spec() == 0);
    }
    assert(q <= big) by (nonlinear_arith)
        requires
            q * q <= big,
            q >= 0,
    ;
    let rooted = Decimal { num: q as u128, scale: 6 };
    if q != 0 {
        assert(decimal_mul_spec(rooted, one) == Some(rooted));
        assert(rooted.floor_spec() == q / 1_000_000);
    } else {
        assert(decimal_mul_spec(rooted, one) == Some(Decimal { num: 0, scale: 0 }));
    }
}

} // verus!
