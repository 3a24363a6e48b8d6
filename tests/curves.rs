use cw20_bonding::curves::{
    decimal, Constant, Curve, DecimalPlaces, Linear, Sigmoid, SquareRoot, Squared,
    SIGMOID_LAST_RESERVE, SIGMOID_LAST_SUPPLY,
};
use cw20_bonding::msg::{CurveFn, CurveType};
use cw20_bonding::numeric::{cube_root, pow10_u128, square_root, Decimal};

fn dec(num: u128, scale: u32) -> Decimal {
    Decimal { num, scale }
}

fn whole() -> DecimalPlaces {
    DecimalPlaces::new(0, 0)
}

#[test]
fn linear_scenario_prices() {
    let curve = Linear::new(dec(1, 0), whole());
    // the spot price is quoted in millionths: a price of 100 reads 100_000_000
    assert_eq!(curve.spot_price(100), Some(100_000_000));
    assert_eq!(curve.reserve(100), Some(5000));
    assert_eq!(curve.supply(5000), Some(100));
}

#[test]
fn linear_round_trip_values() {
    let curve = Linear::new(dec(1, 0), whole());
    for s in [0u128, 1, 2, 3, 7, 99, 100, 1001, 123_456] {
        let r = curve.reserve(s).unwrap();
        let back = curve.supply(r).unwrap();
        assert!(back <= s && s - back <= 1, "supply {} came back as {}", s, back);
    }
}

#[test]
fn linear_reserve_grows() {
    let curve = Linear::new(dec(3, 0), whole());
    let mut last = curve.reserve(1).unwrap();
    for s in 2u128..200 {
        let r = curve.reserve(s).unwrap();
        assert!(r > last);
        last = r;
    }
    assert_eq!(curve.reserve(0), Some(0));
    assert_eq!(curve.reserve(1), Some(1));
}

#[test]
fn linear_with_decimal_places() {
    // slope 1.5, six places on both sides: two tokens reserve 0.5 * 1.5 * 4 = 3 tokens
    let curve = Linear::new(dec(15, 1), DecimalPlaces::new(6, 6));
    assert_eq!(curve.reserve(2_000_000), Some(3_000_000));
    assert_eq!(curve.supply(3_000_000), Some(2_000_000));
    assert_eq!(curve.spot_price(2_000_000), Some(3_000_000));
}

#[test]
fn constant_round_trip_values() {
    let curve = Constant::new(dec(2, 0), whole());
    assert_eq!(curve.reserve(10), Some(20));
    assert_eq!(curve.supply(20), Some(10));
    assert_eq!(curve.spot_price(123), Some(2_000_000));
    let fractional = Constant::new(dec(3, 1), whole());
    assert_eq!(fractional.reserve(10), Some(3));
    assert_eq!(fractional.supply(3), Some(10));
    // a price below one unit floors away small amounts
    assert_eq!(fractional.reserve(2), Some(0));
}

#[test]
fn constant_reserve_grows() {
    let curve = Constant::new(dec(7, 0), DecimalPlaces::new(2, 2));
    let mut last = curve.reserve(0).unwrap();
    for s in 1u128..100 {
        let r = curve.reserve(s).unwrap();
        assert!(r > last);
        assert_eq!(curve.supply(r), Some(s));
        last = r;
    }
}

#[test]
fn square_root_curve_values() {
    let curve = SquareRoot::new(dec(1, 0), whole());
    assert_eq!(curve.spot_price(4), Some(2_000_000));
    assert_eq!(curve.reserve(4), Some(5));
    assert_eq!(curve.supply(5), Some(3));
    let mut last = curve.reserve(1).unwrap();
    for s in 2u128..100 {
        let r = curve.reserve(s).unwrap();
        assert!(r >= last);
        last = r;
        let back = curve.supply(r).unwrap();
        assert!(back <= s && s - back <= 1, "supply {} came back as {}", s, back);
    }
}

#[test]
fn squared_curve_values() {
    let curve = Squared::new(dec(1, 0), whole());
    assert_eq!(curve.spot_price(3), Some(9_000_000));
    assert_eq!(curve.reserve(3), Some(9));
    assert_eq!(curve.supply(9), Some(3));
    let mut last = curve.reserve(1).unwrap();
    for s in 2u128..100 {
        let r = curve.reserve(s).unwrap();
        assert!(r > last);
        last = r;
        let back = curve.supply(r).unwrap();
        assert!(back <= s && s - back <= 1, "supply {} came back as {}", s, back);
    }
}

#[test]
fn overflow_is_reported() {
    let curve = Squared::new(dec(1, 0), whole());
    assert_eq!(curve.reserve(u128::MAX), None);
    let linear = Linear::new(dec(1, 0), whole());
    assert_eq!(linear.supply(u128::MAX), None);
}

#[test]
fn sigmoid_scenario() {
    let curve = Sigmoid::new(dec(0, 0), DecimalPlaces::new(6, 6));
    assert_eq!(curve.spot_price(0), Some(1));
    // one unit into the second interval the interpolated rise is below one
    // millionth, so the floored price is still the breakpoint's
    let p = curve.spot_price(10_000_000_000_001).unwrap();
    assert!(p >= 100_000 && p < 200_000);
    assert_eq!(p, 100_000);
    assert_eq!(curve.supply(0), Some(0));
    assert_eq!(curve.supply(SIGMOID_LAST_RESERVE + 1), Some(0));
    assert_eq!(curve.spot_price(SIGMOID_LAST_SUPPLY + 1), Some(u128::MAX));
}

#[test]
fn sigmoid_breakpoints() {
    let curve = Sigmoid::new(dec(0, 0), DecimalPlaces::new(6, 6));
    assert_eq!(curve.reserve(10_000_000_000_000), Some(500_000_000_000));
    assert_eq!(curve.supply(500_000_000_000), Some(10_000_000_000_000));
    // a breakpoint belongs to the interval below it and gets its table price
    assert_eq!(curve.spot_price(10_000_000_000_000), Some(100_000));
    assert_eq!(curve.spot_price(19_999_000_000_000), Some(200_000));
    assert_eq!(curve.reserve(SIGMOID_LAST_SUPPLY), Some(SIGMOID_LAST_RESERVE));
    assert_eq!(curve.reserve(SIGMOID_LAST_SUPPLY + 5), Some(SIGMOID_LAST_RESERVE));
    assert_eq!(curve.supply(SIGMOID_LAST_RESERVE), Some(SIGMOID_LAST_SUPPLY));
    assert_eq!(curve.spot_price(SIGMOID_LAST_SUPPLY), Some(34_000_000_000));
}

#[test]
fn sigmoid_interpolates_within_intervals() {
    let curve = Sigmoid::new(dec(0, 0), DecimalPlaces::new(6, 6));
    // halfway along (10e12, 19.999e12]: 100_000 + 5e12 * 100_000 / 9.999e12
    assert_eq!(curve.spot_price(15_000_000_000_000), Some(150_005));
    // trapezoid from the interval's start to the interpolated point
    assert_eq!(curve.reserve(15_000_000_000_000), Some(500_000_000_000 + 5_000_000_000_000 * 250_005 / 2_000_000));
    // halfway along (20e12, 25e12]: 80_000_000 + 2.5e12 * 40_000_000 / 5e12
    assert_eq!(curve.spot_price(22_500_000_000_000), Some(100_000_000));
    // a reserve of zero is the out-of-domain sentinel
    assert_eq!(curve.reserve(9_999_999), Some(0));
    assert_eq!(curve.supply(0), Some(0));
    // supply inverts the trapezoid: the largest supply whose reserve fits
    for s in [5_000_000_000_000u128, 15_000_000_000_000, 22_500_000_000_000, 123_456_789_012_345] {
        let r = curve.reserve(s).unwrap();
        let back = curve.supply(r).unwrap();
        assert!(back >= s);
        assert_eq!(curve.reserve(back), Some(r));
        assert!(curve.reserve(back + 1).unwrap() > r);
    }
}

#[test]
fn sigmoid_reserve_never_decreases() {
    let curve = Sigmoid::new(dec(0, 0), DecimalPlaces::new(6, 6));
    let mut last = curve.reserve(0).unwrap();
    let step = SIGMOID_LAST_SUPPLY / 997;
    let mut s = 0u128;
    while s <= SIGMOID_LAST_SUPPLY + step {
        let r = curve.reserve(s).unwrap();
        assert!(r >= last);
        last = r;
        s += step;
    }
}

#[test]
fn decimal_bounds() {
    assert_eq!(decimal(5, 1), Some(dec(5, 1)));
    assert_eq!(decimal(1, 29), None);
    assert_eq!(decimal(1u128 << 96, 0), None);
    assert_eq!(decimal((1u128 << 96) - 1, 28), Some(dec((1u128 << 96) - 1, 28)));
}

#[test]
fn decimal_places_conversions() {
    let places = DecimalPlaces::new(6, 9);
    assert_eq!(places.supply, 6);
    assert_eq!(places.reserve, 9);
    assert_eq!(places.from_supply(1_500_000), Some(dec(1_500_000, 6)));
    assert_eq!(places.from_reserve(7), Some(dec(7, 9)));
    assert_eq!(places.to_supply(dec(15, 1)), Some(1_500_000));
    assert_eq!(places.to_reserve(dec(15, 1)), Some(1_500_000_000));
    // flooring, never rounding up
    assert_eq!(places.to_supply(dec(19_999_999, 7)), Some(1_999_999));
    assert_eq!(DecimalPlaces::new(40, 0).to_supply(dec(1, 0)), None);
}

#[test]
fn fixed_point_roots() {
    assert_eq!(square_root(dec(2, 0)), Some(dec(1_414_213, 6)));
    assert_eq!(square_root(dec(25, 2)), Some(dec(500_000, 6)));
    assert_eq!(cube_root(dec(2, 0)), Some(dec(1_259, 3)));
    assert_eq!(cube_root(dec(27, 0)), Some(dec(3_000, 3)));
    assert_eq!(pow10_u128(0), 1);
    assert_eq!(pow10_u128(12), 1_000_000_000_000);
}

#[test]
fn decimal_floor() {
    assert_eq!(dec(12_345, 2).floor(), 123);
    assert_eq!(dec(7, 0).floor(), 7);
    assert_eq!(dec(9, 1).floor(), 0);
}

#[test]
fn curve_type_selection() {
    let places = DecimalPlaces::new(0, 0);
    let linear = CurveType::Linear { slope: 1, scale: 0 }.to_curve_fn(places).unwrap();
    assert_eq!(linear, CurveFn::Linear(Linear::new(dec(1, 0), places)));
    assert_eq!(linear.reserve(100), Some(5000));
    let constant = CurveType::Constant { value: 15, scale: 1 }.to_curve_fn(places).unwrap();
    assert_eq!(constant.reserve(10), Some(15));
    assert!(CurveType::SquareRoot { slope: 1, scale: 0 }.to_curve_fn(places).is_some());
    assert!(CurveType::Squared { slope: 1, scale: 0 }.to_curve_fn(places).is_some());
    let sigmoid = CurveType::Sigmoid { slope: 1, scale: 0 }.to_curve_fn(places).unwrap();
    assert_eq!(sigmoid.spot_price(0), Some(1));
    assert_eq!(CurveType::Linear { slope: 1, scale: 29 }.to_curve_fn(places), None);
}

#[test]
fn constant_round_trip_with_places_and_scale() {
    // price 2.5, supply in hundredths, reserve in ten-thousandths
    let curve = Constant::new(dec(25, 1), DecimalPlaces::new(2, 4));
    assert_eq!(curve.reserve(100), Some(25_000));
    for s in [0u128, 1, 7, 100, 12_345] {
        let r = curve.reserve(s).unwrap();
        assert_eq!(r, s * 250);
        assert_eq!(curve.supply(r), Some(s));
    }
}

#[test]
fn linear_reserve_grows_with_places() {
    // slope 0.02, supply and reserve in millionths: one unit steps can tie,
    // but the reserve never falls
    let curve = Linear::new(dec(2, 2), DecimalPlaces::new(6, 6));
    let mut last = 0u128;
    for s in (0u128..5_000_000).step_by(99_991) {
        let r = curve.reserve(s).unwrap();
        assert!(r >= last);
        last = r;
    }
    assert_eq!(curve.reserve(1_000_000), Some(10_000));
}
