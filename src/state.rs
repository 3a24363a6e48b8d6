//! The persistent records: curve state and the four configuration records.

use vstd::prelude::*;
use crate::curves::DecimalPlaces;

verus! {

/// Cumulative reserve and supply of the curve, and the lifetime tax.
#[derive(Clone, Debug, PartialEq, Eq)]
pub struct CurveState {
    /// Reserve currency held against the supply.
    pub reserve: u128,
    /// Supply tokens issued.
    pub supply: u128,
    /// Denomination of the reserve currency.
    pub reserve_denom: String,
    /// How to normalise reserve and supply amounts.
    pub decimals: DecimalPlaces,
    /// Tax collected since the start.
    pub tax_collected: u128,
}

impl CurveState {
    pub fn new(reserve_denom: String, decimals: DecimalPlaces) -> (r: Self)
        ensures
            r.reserve == 0,
            r.supply == 0,
            r.reserve_denom == reserve_denom,
            r.decimals == decimals,
            r.tax_collected == 0,
    {
        CurveState { reserve: 0, supply: 0, reserve_denom, decimals, tax_collected: 0 }
    }
}

/// Fee percentages, in parts per thousand, and the presale price (0 turns
/// the presale off).
#[derive(Clone, Copy, Debug, PartialEq, Eq)]
pub struct ParamConfig {
    pub yield_percent: u32,
    pub burn_percent: u32,
    pub social_percent: u32,
    pub expense_percent: u32,
    pub affiliate_percent: u32,
    pub tax_percent: u32,
    pub presale_price: u32,
}

/// The owner and the accounts that fees and funds are routed to.
#[derive(Clone, Debug, PartialEq, Eq)]
pub struct AcctConfig {
    pub owner: String,
    pub presale_acct: String,
    pub yield_acct: String,
    pub burn_acct: String,
    pub social_acct: String,
    pub expense_acct: String,
    pub stake_acct: String,
    pub unstake_acct: String,
}

/// The liquidity-transfer role, the share of its payments kept as deposit
/// (parts per thousand), the tax-exempt address and the minter tag.
#[derive(Clone, Debug, PartialEq, Eq)]
pub struct DexferConfig {
    pub dexfer_manager: String,
    pub deposit_percent: u32,
    pub tax_exempt: String,
    pub token_minter: String,
}

/// Who may buy and who may sell: `"1"` for anyone, else one address.
#[derive(Clone, Debug, PartialEq, Eq)]
pub struct SafetyConfig {
    pub can_buy: String,
    pub can_sell: String,
}

} // verus!
