//! Messages and query responses, and the choice of curve.

use vstd::prelude::*;
use crate::curves::{
    decimal, decimal_spec, Constant, Curve, DecimalPlaces, Linear, Sigmoid, SquareRoot, Squared,
};

verus! {

/// Nothing to migrate.
#[derive(Clone, Copy, Debug, PartialEq, Eq)]
pub struct MigrateMsg {}

/// Set-up of a new bonding token.
#[derive(Clone, Debug, PartialEq, Eq)]
pub struct InstantiateMsg {
    /// Name of the supply token.
    pub name: String,
    /// Symbol of the supply token.
    pub symbol: String,
    /// Decimal places of the supply token.
    pub decimals: u8,
    /// Denomination of the reserve currency.
    pub reserve_denom: String,
    /// Decimal places of the reserve currency.
    pub reserve_decimals: u8,
    /// The pricing strategy and its parameters.
    pub curve_type: CurveType,
}

/// A pricing strategy with its parameter `value * 10^-scale` (or
/// `slope * 10^-scale`); the sigmoid carries one it does not use.
#[derive(Clone, Copy, Debug, PartialEq, Eq)]
pub enum CurveType {
    Constant { value: u128, scale: u32 },
    Linear { slope: u128, scale: u32 },
    SquareRoot { slope: u128, scale: u32 },
    Squared { slope: u128, scale: u32 },
    Sigmoid { slope: u128, scale: u32 },
}

/// A pricing strategy bound to the decimal places of the two tokens.
#[derive(Clone, Copy, Debug, PartialEq, Eq)]
pub enum CurveFn {
    Constant(Constant),
    Linear(Linear),
    SquareRoot(SquareRoot),
    Squared(Squared),
    Sigmoid(Sigmoid),
}

/// The curve that a curve type and decimal places select; absent when the
/// parameter is not representable.
pub open spec fn curve_fn_spec(t: CurveType, places: DecimalPlaces) -> Option<CurveFn> {
    match t {
        CurveType::Constant { value, scale } => match decimal_spec(value, scale) {
            Some(d) => Some(CurveFn::Constant(Constant { value: d, normalize: places })),
            None => None,
        },
        CurveType::Linear { slope, scale } => match decimal_spec(slope, scale) {
            Some(d) => Some(CurveFn::Linear(Linear { slope: d, normalize: places })),
            None => None,
        },
        CurveType::SquareRoot { slope, scale } => match decimal_spec(slope, scale) {
            Some(d) => Some(CurveFn::SquareRoot(SquareRoot { slope: d, normalize: places })),
            None => None,
        },
        CurveType::Squared { slope, scale } => match decimal_spec(slope, scale) {
            Some(d) => Some(CurveFn::Squared(Squared { slope: d, normalize: places })),
            None => None,
        },
        CurveType::Sigmoid { slope, scale } => match decimal_spec(slope, scale) {
            Some(d) => Some(CurveFn::Sigmoid(Sigmoid { slope: d, normalize: places })),
            None => None,
        },
    }
}

impl CurveType {
    /// The curve for these decimal places; `None` when the parameter's
    /// mantissa exceeds 96 bits or its scale exceeds 28.
    pub fn to_curve_fn(&self, places: DecimalPlaces) -> (r: Option<CurveFn>)
        ensures
            r == curve_fn_spec(*self, places),
            r matches Some(c) ==> c.valid(),
    {
        match *self {
            CurveType::Constant { value, scale } => {
                let d = decimal(value, scale)?;
                Some(CurveFn::Constant(Constant::new(d, places)))
            },
            CurveType::Linear { slope, scale } => {
                let d = decimal(slope, scale)?;
                Some(CurveFn::Linear(Linear::new(d, places)))
            },
            CurveType::SquareRoot { slope, scale } => {
                let d = decimal(slope, scale)?;
                Some(CurveFn::SquareRoot(SquareRoot::new(d, places)))
            },
            CurveType::Squared { slope, scale } => {
                let d = decimal(slope, scale)?;
                Some(CurveFn::Squared(Squared::new(d, places)))
            },
            CurveType::Sigmoid { slope, scale } => {
                let d = decimal(slope, scale)?;
                Some(CurveFn::Sigmoid(Sigmoid::new(d, places)))
            },
        }
    }
}

impl Curve for CurveFn {
    open spec fn valid(&self) -> bool {
        match self {
            CurveFn::Constant(c) => c.valid(),
            CurveFn::Linear(c) => c.valid(),
            CurveFn::SquareRoot(c) => c.valid(),
            CurveFn::Squared(c) => c.valid(),
            CurveFn::Sigmoid(c) => c.valid(),
        }
    }

    open spec fn spot_price_spec(&self, supply: u128) -> Option<u128> {
        match self {
            CurveFn::Constant(c) => c.spot_price_spec(supply),
            CurveFn::Linear(c) => c.spot_price_spec(supply),
            CurveFn::SquareRoot(c) => c.spot_price_spec(supply),
            CurveFn::Squared(c) => c.spot_price_spec(supply),
            CurveFn::Sigmoid(c) => c.spot_price_spec(supply),
        }
    }

    open spec fn reserve_spec(&self, supply: u128) -> Option<u128> {
        match self {
            CurveFn::Constant(c) => c.reserve_spec(supply),
            CurveFn::Linear(c) => c.reserve_spec(supply),
            CurveFn::SquareRoot(c) => c.reserve_spec(supply),
            CurveFn::Squared(c) => c.reserve_spec(supply),
            CurveFn::Sigmoid(c) => c.reserve_spec(supply),
        }
    }

    open spec fn supply_spec(&self, reserve: u128) -> Option<u128> {
        match self {
            CurveFn::Constant(c) => c.supply_spec(reserve),
            CurveFn::Linear(c) => c.supply_spec(reserve),
            CurveFn::SquareRoot(c) => c.supply_spec(reserve),
            CurveFn::Squared(c) => c.supply_spec(reserve),
            CurveFn::Sigmoid(c) => c.supply_spec(reserve),
        }
    }

    fn spot_price(&self, supply: u128) -> (r: Option<u128>) {
        match self {
            CurveFn::Constant(c) => c.spot_price(supply),
            CurveFn::Linear(c) => c.spot_price(supply),
            CurveFn::SquareRoot(c) => c.spot_price(supply),
            CurveFn::Squared(c) => c.spot_price(supply),
            CurveFn::Sigmoid(c) => c.spot_price(supply),
        }
    }

    fn reserve(&self, supply: u128) -> (r: Option<u128>) {
        match self {
            CurveFn::Constant(c) => c.reserve(supply),
            CurveFn::Linear(c) => c.reserve(supply),
            CurveFn::SquareRoot(c) => c.reserve(supply),
            CurveFn::Squared(c) => c.reserve(supply),
            CurveFn::Sigmoid(c) => c.reserve(supply),
        }
    }

    fn supply(&self, reserve: u128) -> (r: Option<u128>) {
        match self {
            CurveFn::Constant(c) => c.supply(reserve),
            CurveFn::Linear(c) => c.supply(reserve),
            CurveFn::SquareRoot(c) => c.supply(reserve),
            CurveFn::Squared(c) => c.supply(reserve),
            CurveFn::Sigmoid(c) => c.supply(reserve),
        }
    }
}

/// The queries the contract answers.
#[derive(Clone, Debug, PartialEq, Eq)]
pub enum QueryMsg {
    /// Reserve, supply, spot price, reserve currency and lifetime tax.
    CurveInfo {},
    /// Balance of an address on the token ledger.
    Balance { address: String },
    /// Token metadata from the token ledger.
    TokenInfo {},
    /// Allowance of a spender over an owner's tokens.
    Allowance { owner: String, spender: String },
    /// Marketing metadata.
    MarketingInfo {},
    /// The embedded logo.
    DownloadLogo {},
    /// Who may mint, and the cap.
    Minter {},
    /// Fee percentages and presale price.
    ParamInfo {},
    /// Owner and routing accounts.
    AcctInfo {},
    /// Liquidity-transfer settings.
    DexferInfo {},
    /// Buy and sell switches.
    SafetyInfo {},
}

/// Answer to the curve-info query.
#[derive(Clone, Debug, PartialEq, Eq)]
pub struct CurveInfoResponse {
    /// Reserve currency received.
    pub reserve: u128,
    /// Supply tokens issued.
    pub supply: u128,
    pub spot_price: u128,
    pub reserve_denom: String,
    pub tax_collected: u128,
}

/// Answer to the parameter query.
#[derive(Clone, Copy, Debug, PartialEq, Eq)]
pub struct ParamInfoResponse {
    pub yield_percent: u32,
    pub burn_percent: u32,
    pub social_percent: u32,
    pub expense_percent: u32,
    pub affiliate_percent: u32,
    pub tax_percent: u32,
    pub presale_price: u32,
}

/// Answer to the account-routing query.
#[derive(Clone, Debug, PartialEq, Eq)]
pub struct AcctInfoResponse {
    pub owner: String,
    pub presale_acct: String,
    pub yield_acct: String,
    pub burn_acct: String,
    pub social_acct: String,
    pub expense_acct: String,
    pub stake_acct: String,
    pub unstake_acct: String,
}

/// Answer to the liquidity-transfer query.
#[derive(Clone, Debug, PartialEq, Eq)]
pub struct DexferInfoResponse {
    pub dexfer_manager: String,
    pub deposit_percent: u32,
    pub tax_exempt: String,
    pub token_minter: String,
}

/// Answer to the safety-switch query.
#[derive(Clone, Debug, PartialEq, Eq)]
pub struct SafetyInfoResponse {
    pub can_buy: String,
    pub can_sell: String,
}

} // verus!
