//! The settlement engine: payment checks, the buy and sell rules, the
//! owner-gated configuration updates and the read-only queries. Storage, the
//! token ledger and address validation stay with the caller, which hands the
//! records in and persists what comes back.

use vstd::prelude::*;
use crate::curves::Curve;
use crate::error::{ContractError, PaymentError};
use crate::curves::DecimalPlaces;
use crate::msg::{
    AcctInfoResponse, CurveInfoResponse, CurveType, DexferInfoResponse, InstantiateMsg,
    ParamInfoResponse, SafetyInfoResponse,
};
use crate::state::{AcctConfig, CurveState, DexferConfig, ParamConfig, SafetyConfig};

verus! {

/// An amount of one currency.
#[derive(Clone, Debug, PartialEq, Eq)]
pub struct Coin {
    pub denom: String,
    pub amount: u128,
}

/// Who makes a call, and the funds sent with it.
#[derive(Clone, Debug, PartialEq, Eq)]
pub struct MessageInfo {
    pub sender: String,
    pub funds: Vec<Coin>,
}

/// An outbound transfer of reserve currency.
#[derive(Clone, Debug, PartialEq, Eq)]
pub struct Transfer {
    pub to_address: String,
    pub denom: String,
    pub amount: u128,
}

/// The single non-zero coin sent, or why there is none.
pub open spec fn one_coin_spec(funds: Seq<Coin>) -> Result<Coin, PaymentError> {
    if funds.len() == 0 {
        Err(PaymentError::NoFunds {  })
    } else if funds.len() == 1 {
        if funds[0].amount == 0 {
            Err(PaymentError::NoFunds {  })
        } else {
            Ok(funds[0])
        }
    } else {
        Err(PaymentError::MultipleDenoms {  })
    }
}

/// The amount of the single non-zero coin sent, which must be of `denom`.
pub open spec fn must_pay_spec(funds: Seq<Coin>, denom: String) -> Result<u128, PaymentError> {
    match one_coin_spec(funds) {
        Err(e) => Err(e),
        Ok(c) => if c.denom@ != denom@ {
            Err(PaymentError::MissingDenom(denom))
        } else {
            Ok(c.amount)
        },
    }
}

/// Funds were sent, or not.
pub open spec fn nonpayable_spec(funds: Seq<Coin>) -> Result<(), PaymentError> {
    if funds.len() == 0 {
        Ok(())
    } else {
        Err(PaymentError::NonPayable {  })
    }
}

pub fn must_pay(info: &MessageInfo, denom: &String) -> (r: Result<u128, PaymentError>)
    ensures
        r == must_pay_spec(info.funds@, *denom),
{
    let coin = one_coin(info)?;
    if coin.denom != *denom {
        Err(PaymentError::MissingDenom(denom.clone()))
    } else {
        Ok(coin.amount)
    }
}

pub fn nonpayable(info: &MessageInfo) -> (r: Result<(), PaymentError>)
    ensures
        r == nonpayable_spec(info.funds@),
{
    if info.funds.len() == 0 {
        Ok(())
    } else {
        Err(PaymentError::NonPayable {  })
    }
}

pub fn one_coin(info: &MessageInfo) -> (r: Result<Coin, PaymentError>)
    ensures
        r == one_coin_spec(info.funds@),
{
    let n = info.funds.len();
    if n == 0 {
        Err(PaymentError::NoFunds {  })
    } else if n == 1 {
        let coin = &info.funds[0];
        if coin.amount == 0 {
            Err(PaymentError::NoFunds {  })
        } else {
            Ok(Coin { denom: coin.denom.clone(), amount: coin.amount })
        }
    } else {
        Err(PaymentError::MultipleDenoms {  })
    }
}

/// The switch value that lets everyone through.
pub open spec fn open_switch() -> Seq<char> {
    "1"@
}

/// A buy or sell switch lets `sender` through: it is open, or names them.
pub open spec fn switch_allows(switch: Seq<char>, sender: Seq<char>) -> bool {
    switch == open_switch() || switch == sender
}

/// Whether a buy or sell switch lets `sender` through.
pub fn allows(switch: &String, sender: &String) -> (r: bool)
    ensures
        r == switch_allows(switch@, sender@),
{
    let open = "1".to_owned();
    *switch == open || *switch == *sender
}

/// `amount * percent / 1000`, the share in parts per thousand, floored.
pub open spec fn per_mille(amount: int, percent: int) -> int {
    amount * percent / 1000
}

/// The share of `amount` in parts per thousand; overflow when the product
/// does not fit.
pub fn per_mille_of(amount: u128, percent: u32) -> (r: Result<u128, ContractError>)
    ensures
        amount * percent <= u128::MAX ==> r == Ok::<u128, ContractError>(
            per_mille(amount as int, percent as int) as u128,
        ),
        amount * percent > u128::MAX ==> r == Err::<u128, ContractError>(ContractError::Overflow {  }),
{
    match amount.checked_mul(percent as u128) {
        Some(p) => Ok(p / 1000),
        None => Err(ContractError::Overflow {  }),
    }
}

/// The four shares of a tax.
#[derive(Clone, Copy, Debug, PartialEq, Eq)]
pub struct TaxSplit {
    pub yield_amt: u128,
    pub burn_amt: u128,
    pub social_amt: u128,
    /// What the other three leave of the tax.
    pub expense_amt: u128,
}

/// The yield, burn and social shares of a tax by their percentages, and the
/// remainder as the expense share; overflow when a product does not fit or
/// the three shares exceed the tax.
pub open spec fn tax_split_spec(tax: u128, params: ParamConfig) -> Result<TaxSplit, ContractError> {
    if tax * params.yield_percent > u128::MAX || tax * params.burn_percent > u128::MAX || tax
        * params.social_percent > u128::MAX {
        Err(ContractError::Overflow {  })
    } else {
        let y = per_mille(tax as int, params.yield_percent as int);
        let b = per_mille(tax as int, params.burn_percent as int);
        let s = per_mille(tax as int, params.social_percent as int);
        if y + b + s > tax {
            Err(ContractError::Overflow {  })
        } else {
            Ok(
                TaxSplit {
                    yield_amt: y as u128,
                    burn_amt: b as u128,
                    social_amt: s as u128,
                    expense_amt: (tax - y - b - s) as u128,
                },
            )
        }
    }
}

/// Splits a tax into its yield, burn, social and expense shares.
pub fn split_tax(tax_amount: u128, params: &ParamConfig) -> (r: Result<TaxSplit, ContractError>)
    ensures
        r == tax_split_spec(tax_amount, *params),
{
    let yield_amt = per_mille_of(tax_amount, params.yield_percent)?;
    let burn_amt = per_mille_of(tax_amount, params.burn_percent)?;
    let social_amt = per_mille_of(tax_amount, params.social_percent)?;
    if tax_amount < yield_amt {
        return Err(ContractError::Overflow {  });
    }
    let rest = tax_amount - yield_amt;
    if rest < burn_amt {
        return Err(ContractError::Overflow {  });
    }
    let rest = rest - burn_amt;
    if rest < social_amt {
        return Err(ContractError::Overflow {  });
    }
    Ok(TaxSplit { yield_amt, burn_amt, social_amt, expense_amt: rest - social_amt })
}

/// Whenever a tax can be split, its four shares add up to the tax exactly.
/// The split can always be made when the yield, burn and social
/// percentages together stay within one thousand parts and a thousand times
/// the tax fits in 128 bits; a share of zero parts is zero.
pub proof fn tax_decomposition(tax: u128, params: ParamConfig)
    ensures
        tax_split_spec(tax, params) matches Ok(t) ==> t.yield_amt + t.burn_amt + t.social_amt
            + t.expense_amt == tax,
        params.yield_percent + params.burn_percent + params.social_percent <= 1000 && tax * 1000
            <= u128::MAX ==> tax_split_spec(tax, params) is Ok,
        tax_split_spec(tax, params) matches Ok(t) ==> (params.yield_percent == 0 ==> t.yield_amt
            == 0),
{
    let y = params.yield_percent as int;
    let b = params.burn_percent as int;
    let s = params.social_percent as int;
    let t = tax as int;
    if y + b + s <= 1000 {
        assert(t * y <= t * 1000 && t * b <= t * 1000 && t * s <= t * 1000) by (nonlinear_arith)
            requires
                0 <= y <= 1000,
                0 <= b <= 1000,
                0 <= s <= 1000,
                t >= 0,
        ;
        assert(t * y / 1000 + t * b / 1000 + t * s / 1000 <= t) by (nonlinear_arith)
            requires
                y + b + s <= 1000,
                0 <= y,
                0 <= b,
                0 <= s,
                t >= 0,
        ;
    }
}

/// The caller is the liquidity-transfer role.
pub open spec fn is_dexfer(special: DexferConfig, sender: Seq<char>) -> bool {
    special.dexfer_manager@ == sender
}

/// The caller is the liquidity-transfer role or the tax-exempt address: no
/// tax is charged and no affiliate is rewarded.
pub open spec fn is_untaxed(special: DexferConfig, sender: Seq<char>) -> bool {
    special.dexfer_manager@ == sender || special.tax_exempt@ == sender
}

/// The minter tag under which this contract mints.
pub open spec fn contract_minter() -> Seq<char> {
    "contract"@
}

/// What a purchase computes.
#[derive(Clone, Copy, Debug, PartialEq, Eq)]
pub struct BuyAmounts {
    /// The payment sent.
    pub gross: u128,
    /// The tax charged (zero when none is).
    pub tax: u128,
    /// Its four shares, when a tax is charged.
    pub tax_split: Option<TaxSplit>,
    /// The affiliate's reward, when one is paid.
    pub affiliate_reward: Option<u128>,
    /// What goes to the presale fund, in presale mode.
    pub presale_fund: Option<u128>,
    /// The payment left for routing: staked, or split by the
    /// liquidity-transfer role.
    pub routed: u128,
    /// The part of `routed` the liquidity-transfer role leaves as deposit;
    /// the rest is sent back to it.
    pub deposit: Option<u128>,
    /// Supply tokens minted to the buyer.
    pub minted: u128,
    /// The curve's reserve after the purchase.
    pub reserve: u128,
    /// The curve's supply after the purchase.
    pub supply: u128,
    /// Lifetime tax after the purchase.
    pub tax_collected: u128,
}

/// A purchase: switch, payment and presale-window checks, then the rest.
pub open spec fn buy_spec<C: Curve>(
    curve: C,
    state: CurveState,
    params: ParamConfig,
    special: DexferConfig,
    safety: SafetyConfig,
    info: MessageInfo,
    affiliate: Seq<char>,
) -> Result<BuyAmounts, ContractError> {
    if !switch_allows(safety.can_buy@, info.sender@) {
        Err(ContractError::MintPaused {  })
    } else {
        match must_pay_spec(info.funds@, state.reserve_denom) {
            Err(e) => Err(ContractError::Payment(e)),
            Ok(gross) => match curve.spot_price_spec(state.supply) {
                None => Err(ContractError::Overflow {  }),
                Some(spot) => if params.presale_price != 0 && params.presale_price < spot {
                    Err(ContractError::PreSaleOver {  })
                } else if gross * 995 > u128::MAX {
                    Err(ContractError::Overflow {  })
                } else {
                    let start = BuyAmounts {
                        gross,
                        tax: 0,
                        tax_split: None,
                        affiliate_reward: None,
                        presale_fund: None,
                        routed: 0,
                        deposit: None,
                        minted: 0,
                        reserve: state.reserve,
                        supply: state.supply,
                        tax_collected: state.tax_collected,
                    };
                    buy_tax_spec(curve, params, special, info.sender@, affiliate, start, (gross * 995 / 1000) as u128)
                },
            },
        }
    }
}

/// Tax step of a purchase, on the payment left after the 0.5% fee: charged
/// when no presale runs and the caller is neither exempt nor the
/// liquidity-transfer role.
pub open spec fn buy_tax_spec<C: Curve>(
    curve: C,
    params: ParamConfig,
    special: DexferConfig,
    sender: Seq<char>,
    affiliate: Seq<char>,
    a: BuyAmounts,
    payment: u128,
) -> Result<BuyAmounts, ContractError> {
    if params.presale_price == 0 && !is_untaxed(special, sender) {
        if payment * params.tax_percent > u128::MAX {
            Err(ContractError::Overflow {  })
        } else {
            let tax = per_mille(payment as int, params.tax_percent as int);
            if tax > payment {
                Err(ContractError::Overflow {  })
            } else {
                match tax_split_spec(tax as u128, params) {
                    Err(e) => Err(e),
                    Ok(split) => if a.tax_collected + tax > u128::MAX {
                        Err(ContractError::Overflow {  })
                    } else {
                        buy_affiliate_spec(
                            curve,
                            params,
                            special,
                            sender,
                            affiliate,
                            BuyAmounts {
                                tax: tax as u128,
                                tax_split: Some(split),
                                tax_collected: (a.tax_collected + tax) as u128,
                                ..a
                            },
                            (payment - tax) as u128,
                        )
                    },
                }
            }
        }
    } else {
        buy_affiliate_spec(curve, params, special, sender, affiliate, a, payment)
    }
}

/// Affiliate step: when an affiliate is named and the caller is neither
/// exempt nor the liquidity-transfer role, the affiliate's share of the
/// payment is paid out of it.
pub open spec fn buy_affiliate_spec<C: Curve>(
    curve: C,
    params: ParamConfig,
    special: DexferConfig,
    sender: Seq<char>,
    affiliate: Seq<char>,
    a: BuyAmounts,
    payment: u128,
) -> Result<BuyAmounts, ContractError> {
    if affiliate.len() != 0 && !is_untaxed(special, sender) {
        if payment * params.affiliate_percent > u128::MAX {
            Err(ContractError::Overflow {  })
        } else {
            let reward = per_mille(payment as int, params.affiliate_percent as int);
            if reward > payment {
                Err(ContractError::Overflow {  })
            } else {
                buy_mint_spec(
                    curve,
                    params,
                    special,
                    sender,
                    BuyAmounts { affiliate_reward: Some(reward as u128), ..a },
                    (payment - reward) as u128,
                )
            }
        }
    } else {
        buy_mint_spec(curve, params, special, sender, a, payment)
    }
}

/// Presale-mode tokens for a payment: a hundred times the payment over the
/// presale price, in millionths, floored at each step.
pub open spec fn presale_tokens(payment: int, presale_price: int) -> int {
    (payment * 100 / presale_price) * 1_000_000 / 100
}

/// Mint step. Curve mode (no presale, or the liquidity-transfer role): the
/// payment joins the reserve and the curve gives the new supply. Presale
/// mode: at least twice the presale price must be paid, tokens are minted at
/// the presale price, the curve's reserve for them joins the reserve, and
/// the rest of the payment goes to the presale fund.
pub open spec fn buy_mint_spec<C: Curve>(
    curve: C,
    params: ParamConfig,
    special: DexferConfig,
    sender: Seq<char>,
    a: BuyAmounts,
    payment: u128,
) -> Result<BuyAmounts, ContractError> {
    if params.presale_price == 0 || is_dexfer(special, sender) {
        if a.reserve + payment > u128::MAX {
            Err(ContractError::Overflow {  })
        } else {
            match curve.supply_spec((a.reserve + payment) as u128) {
                None => Err(ContractError::Overflow {  }),
                Some(new_supply) => if new_supply < a.supply {
                    Err(ContractError::Overflow {  })
                } else {
                    buy_route_spec(
                        special,
                        sender,
                        BuyAmounts {
                            routed: payment,
                            minted: (new_supply - a.supply) as u128,
                            reserve: (a.reserve + payment) as u128,
                            supply: new_supply,
                            ..a
                        },
                    )
                },
            }
        }
    } else {
        let price = params.presale_price as int;
        if payment < 2 * price {
            Err(ContractError::TooLittle {  })
        } else if payment * 100 > u128::MAX || (payment * 100 / price) * 1_000_000 > u128::MAX {
            Err(ContractError::Overflow {  })
        } else {
            let minted = presale_tokens(payment as int, price);
            match curve.reserve_spec(a.supply) {
                None => Err(ContractError::Overflow {  }),
                Some(before) => if a.supply + minted > u128::MAX {
                    Err(ContractError::Overflow {  })
                } else {
                    match curve.reserve_spec((a.supply + minted) as u128) {
                        None => Err(ContractError::Overflow {  }),
                        Some(after) => if after < before || after - before > payment || a.reserve
                            + (after - before) > u128::MAX {
                            Err(ContractError::Overflow {  })
                        } else {
                            buy_route_spec(
                                special,
                                sender,
                                BuyAmounts {
                                    presale_fund: Some((payment - (after - before)) as u128),
                                    routed: (after - before) as u128,
                                    minted: minted as u128,
                                    reserve: (a.reserve + (after - before)) as u128,
                                    supply: (a.supply + minted) as u128,
                                    ..a
                                },
                            )
                        },
                    }
                },
            }
        }
    }
}

/// Routing step: the liquidity-transfer role keeps its deposit share and
/// gets the rest back; anyone else's payment is staked. Minting needs this
/// contract to be the ledger's minter.
pub open spec fn buy_route_spec(special: DexferConfig, sender: Seq<char>, a: BuyAmounts) -> Result<
    BuyAmounts,
    ContractError,
> {
    if is_dexfer(special, sender) && (a.routed * special.deposit_percent > u128::MAX || per_mille(
        a.routed as int,
        special.deposit_percent as int,
    ) > a.routed) {
        Err(ContractError::Overflow {  })
    } else if special.token_minter@ != contract_minter() {
        Err(ContractError::WrongMinter {  })
    } else if is_dexfer(special, sender) {
        Ok(
            BuyAmounts {
                deposit: Some(
                    per_mille(a.routed as int, special.deposit_percent as int) as u128,
                ),
                ..a
            },
        )
    } else {
        Ok(a)
    }
}

/// The transfers a purchase sends, in order: the four tax shares, the
/// affiliate reward, the presale fund, then the payment back to the
/// liquidity-transfer role (less its deposit) or to the stake account.
pub open spec fn buy_transfers(
    a: BuyAmounts,
    accounts: AcctConfig,
    special: DexferConfig,
    denom: String,
    affiliate: String,
) -> Seq<Transfer> {
    let taxes = match a.tax_split {
        Some(t) => seq![
            Transfer { to_address: accounts.yield_acct, denom, amount: t.yield_amt },
            Transfer { to_address: accounts.burn_acct, denom, amount: t.burn_amt },
            Transfer { to_address: accounts.social_acct, denom, amount: t.social_amt },
            Transfer { to_address: accounts.expense_acct, denom, amount: t.expense_amt },
        ],
        None => seq![],
    };
    let reward = match a.affiliate_reward {
        Some(x) => seq![Transfer { to_address: affiliate, denom, amount: x }],
        None => seq![],
    };
    let fund = match a.presale_fund {
        Some(f) => seq![Transfer { to_address: accounts.presale_acct, denom, amount: f }],
        None => seq![],
    };
    let route = match a.deposit {
        Some(d) => seq![
            Transfer {
                to_address: special.dexfer_manager,
                denom,
                amount: (a.routed - d) as u128,
            },
        ],
        None => seq![Transfer { to_address: accounts.stake_acct, denom, amount: a.routed }],
    };
    taxes + reward + fund + route
}

/// The outcome of a purchase: its amounts, the transfers to send, and the
/// tokens to mint to the buyer (`amounts.minted`).
#[derive(Clone, Debug, PartialEq, Eq)]
pub struct BuyReceipt {
    pub amounts: BuyAmounts,
    pub transfers: Vec<Transfer>,
}

fn overflow<T>() -> (r: Result<T, ContractError>)
    ensures
        r == Err::<T, ContractError>(ContractError::Overflow {  }),
{
    Err(ContractError::Overflow {  })
}

/// Buys supply tokens with the reserve currency sent. On success the curve
/// state takes the new reserve, supply and lifetime tax; on failure it is
/// left as it was.
pub fn execute_buy<C: Curve>(
    state: &mut CurveState,
    params: &ParamConfig,
    accounts: &AcctConfig,
    special: &DexferConfig,
    safety: &SafetyConfig,
    curve: &C,
    info: &MessageInfo,
    affiliate: &String,
) -> (r: Result<BuyReceipt, ContractError>)
    requires
        curve.valid(),
    ensures
        r matches Err(e) ==> buy_spec(*curve, *old(state), *params, *special, *safety, *info, affiliate@)
            == Err::<BuyAmounts, ContractError>(e) && *final(state) == *old(state),
        r matches Ok(rc) ==> {
            &&& buy_spec(*curve, *old(state), *params, *special, *safety, *info, affiliate@) == Ok::<
                BuyAmounts,
                ContractError,
            >(rc.amounts)
            &&& final(state).reserve == rc.amounts.reserve
            &&& final(state).supply == rc.amounts.supply
            &&& final(state).tax_collected == rc.amounts.tax_collected
            &&& final(state).reserve_denom == old(state).reserve_denom
            &&& final(state).decimals == old(state).decimals
            &&& rc.transfers@ == buy_transfers(
                rc.amounts,
                *accounts,
                *special,
                old(state).reserve_denom,
                *affiliate,
            )
        },
{
    if !allows(&safety.can_buy, &info.sender) {
        return Err(ContractError::MintPaused {  });
    }
    let gross = match must_pay(info, &state.reserve_denom) {
        Ok(g) => g,
        Err(e) => return Err(ContractError::Payment(e)),
    };
    let spot = match curve.spot_price(state.supply) {
        Some(p) => p,
        None => return overflow(),
    };
    let presale_price = params.presale_price as u128;
    if presale_price != 0 && presale_price < spot {
        return Err(ContractError::PreSaleOver {  });
    }
    let mut payment: u128 = match gross.checked_mul(995) {
        Some(x) => x / 1000,
        None => return overflow(),
    };
    let dexfer = special.dexfer_manager == info.sender;
    let untaxed = dexfer || special.tax_exempt == info.sender;

    let mut tax: u128 = 0;
    let mut tax_split: Option<TaxSplit> = None;
    let mut tax_collected = state.tax_collected;
    if presale_price == 0 && !untaxed {
        let t = match per_mille_of(payment, params.tax_percent) {
            Ok(t) => t,
            Err(e) => return Err(e),
        };
        if t > payment {
            return overflow();
        }
        let split = match split_tax(t, params) {
            Ok(s) => s,
            Err(e) => return Err(e),
        };
        tax_collected = match tax_collected.checked_add(t) {
            Some(x) => x,
            None => return overflow(),
        };
        tax = t;
        tax_split = Some(split);
        payment = payment - t;
    }
    let ghost after_tax = payment;

    let mut affiliate_reward: Option<u128> = None;
    if !affiliate.as_str().is_empty() && !untaxed {
        let reward = match per_mille_of(payment, params.affiliate_percent) {
            Ok(x) => x,
            Err(e) => return Err(e),
        };
        if reward > payment {
            return overflow();
        }
        affiliate_reward = Some(reward);
        payment = payment - reward;
    }
    let ghost after_reward = payment;

    let mut presale_fund: Option<u128> = None;
    let minted: u128;
    let new_reserve: u128;
    let new_supply: u128;
    if presale_price == 0 || dexfer {
        let reserve = match state.reserve.checked_add(payment) {
            Some(x) => x,
            None => return overflow(),
        };
        let supply = match curve.supply(reserve) {
            Some(x) => x,
            None => return overflow(),
        };
        if supply < state.supply {
            return overflow();
        }
        minted = supply - state.supply;
        new_reserve = reserve;
        new_supply = supply;
    } else {
        if payment < 2 * presale_price {
            return Err(ContractError::TooLittle {  });
        }
        let hundredfold = match payment.checked_mul(100) {
            Some(x) => x,
            None => return overflow(),
        };
        let result = hundredfold / presale_price;
        minted = match result.checked_mul(1_000_000) {
            Some(x) => x / 100,
            None => return overflow(),
        };
        let before = match curve.reserve(state.supply) {
            Some(x) => x,
            None => return overflow(),
        };
        let supply = match state.supply.checked_add(minted) {
            Some(x) => x,
            None => return overflow(),
        };
        let after = match curve.reserve(supply) {
            Some(x) => x,
            None => return overflow(),
        };
        if after < before {
            return overflow();
        }
        let delta = after - before;
        if delta > payment {
            return overflow();
        }
        new_reserve = match state.reserve.checked_add(delta) {
            Some(x) => x,
            None => return overflow(),
        };
        presale_fund = Some(payment - delta);
        new_supply = supply;
        payment = delta;
    }

    let mut deposit: Option<u128> = None;
    if dexfer {
        let d = match per_mille_of(payment, special.deposit_percent) {
            Ok(x) => x,
            Err(e) => return Err(e),
        };
        if d > payment {
            return overflow();
        }
        deposit = Some(d);
    }
    let minter = "contract".to_owned();
    if special.token_minter != minter {
        return Err(ContractError::WrongMinter {  });
    }
    let amounts = BuyAmounts {
        gross,
        tax,
        tax_split,
        affiliate_reward,
        presale_fund,
        routed: payment,
        deposit,
        minted,
        reserve: new_reserve,
        supply: new_supply,
        tax_collected,
    };
    let ghost expected = buy_transfers(
        amounts,
        *accounts,
        *special,
        state.reserve_denom,
        *affiliate,
    );

    let mut transfers: Vec<Transfer> = Vec::new();
    let denom = &state.reserve_denom;
    match tax_split {
        Some(t) => {
            transfers.push(Transfer { to_address: accounts.yield_acct.clone(), denom: denom.clone(), amount: t.yield_amt });
            transfers.push(Transfer { to_address: accounts.burn_acct.clone(), denom: denom.clone(), amount: t.burn_amt });
            transfers.push(Transfer { to_address: accounts.social_acct.clone(), denom: denom.clone(), amount: t.social_amt });
            transfers.push(Transfer { to_address: accounts.expense_acct.clone(), denom: denom.clone(), amount: t.expense_amt });
        },
        None => {},
    }
    match affiliate_reward {
        Some(x) => {
            transfers.push(Transfer { to_address: affiliate.clone(), denom: denom.clone(), amount: x });
        },
        None => {},
    }
    match presale_fund {
        Some(f) => {
            transfers.push(Transfer { to_address: accounts.presale_acct.clone(), denom: denom.clone(), amount: f });
        },
        None => {},
    }
    match deposit {
        Some(d) => {
            transfers.push(Transfer { to_address: special.dexfer_manager.clone(), denom: denom.clone(), amount: payment - d });
        },
        None => {
            transfers.push(Transfer { to_address: accounts.stake_acct.clone(), denom: denom.clone(), amount: payment });
        },
    }
    assert(transfers@ =~= expected);

    state.reserve = new_reserve;
    state.supply = new_supply;
    state.tax_collected = tax_collected;
    Ok(BuyReceipt { amounts, transfers })
}

/// Marker amount sent to the unstake account on a sale.
pub const UNSTAKE_MARKER: u128 = 101;

/// Marker amount sent to the liquidity-transfer role on its own sale.
pub const DEXFER_MARKER: u128 = 102;

/// What a sale computes.
#[derive(Clone, Copy, Debug, PartialEq, Eq)]
pub struct SellAmounts {
    /// Supply tokens burned.
    pub burned: u128,
    /// Reserve released by the curve.
    pub released: u128,
    /// The tax charged on the released reserve (zero when none is).
    pub tax: u128,
    /// Its four shares, when a tax is charged; they are recorded, not sent.
    pub tax_split: Option<TaxSplit>,
    /// Reserve paid out now: always zero, as the released reserve stays
    /// staked and is unbonded later.
    pub net_released: u128,
    /// The curve's reserve after the sale.
    pub reserve: u128,
    /// The curve's supply after the sale.
    pub supply: u128,
    /// Lifetime tax after the sale.
    pub tax_collected: u128,
}

/// A sale of `amount` tokens by `seller`, whose tokens have been burned: the
/// supply drops, the reserve follows the curve, and a tax on the released
/// reserve is recorded unless the seller is exempt or the
/// liquidity-transfer role.
pub open spec fn sell_spec<C: Curve>(
    curve: C,
    state: CurveState,
    params: ParamConfig,
    special: DexferConfig,
    seller: Seq<char>,
    amount: u128,
) -> Result<SellAmounts, ContractError> {
    if amount > state.supply {
        Err(ContractError::Overflow {  })
    } else {
        match curve.reserve_spec((state.supply - amount) as u128) {
            None => Err(ContractError::Overflow {  }),
            Some(new_reserve) => if new_reserve > state.reserve {
                Err(ContractError::Overflow {  })
            } else {
                let released = (state.reserve - new_reserve) as u128;
                let a = SellAmounts {
                    burned: amount,
                    released,
                    tax: 0,
                    tax_split: None,
                    net_released: 0,
                    reserve: new_reserve,
                    supply: (state.supply - amount) as u128,
                    tax_collected: state.tax_collected,
                };
                if is_untaxed(special, seller) {
                    Ok(a)
                } else if released * params.tax_percent > u128::MAX {
                    Err(ContractError::Overflow {  })
                } else {
                    let tax = per_mille(released as int, params.tax_percent as int);
                    if tax > released {
                        Err(ContractError::Overflow {  })
                    } else {
                        match tax_split_spec(tax as u128, params) {
                            Err(e) => Err(e),
                            Ok(split) => if state.tax_collected + tax > u128::MAX {
                                Err(ContractError::Overflow {  })
                            } else {
                                Ok(
                                    SellAmounts {
                                        tax: tax as u128,
                                        tax_split: Some(split),
                                        tax_collected: (state.tax_collected + tax) as u128,
                                        ..a
                                    },
                                )
                            },
                        }
                    }
                }
            },
        }
    }
}

/// The one transfer a sale sends: a marker to the liquidity-transfer role
/// when it sells, else to the unstake account.
pub open spec fn sell_transfers(
    accounts: AcctConfig,
    special: DexferConfig,
    denom: String,
    seller: Seq<char>,
) -> Seq<Transfer> {
    if is_dexfer(special, seller) {
        seq![Transfer { to_address: special.dexfer_manager, denom, amount: DEXFER_MARKER }]
    } else {
        seq![Transfer { to_address: accounts.unstake_acct, denom, amount: UNSTAKE_MARKER }]
    }
}

/// The outcome of a sale.
#[derive(Clone, Debug, PartialEq, Eq)]
pub struct SellReceipt {
    pub amounts: SellAmounts,
    pub transfers: Vec<Transfer>,
}

/// `r` and the state after it are what a sale of `amount` tokens by
/// `seller` gives: on failure the error of the sale and the state as before;
/// on success its amounts, the state they describe, and its transfers.
pub open spec fn sell_settled<C: Curve>(
    r: Result<SellReceipt, ContractError>,
    curve: C,
    before: CurveState,
    after: CurveState,
    params: ParamConfig,
    accounts: AcctConfig,
    special: DexferConfig,
    seller: Seq<char>,
    amount: u128,
) -> bool {
    match r {
        Err(e) => sell_spec(curve, before, params, special, seller, amount) == Err::<
            SellAmounts,
            ContractError,
        >(e) && after == before,
        Ok(rc) => {
            &&& sell_spec(curve, before, params, special, seller, amount) == Ok::<
                SellAmounts,
                ContractError,
            >(rc.amounts)
            &&& after.reserve == rc.amounts.reserve
            &&& after.supply == rc.amounts.supply
            &&& after.tax_collected == rc.amounts.tax_collected
            &&& after.reserve_denom == before.reserve_denom
            &&& after.decimals == before.decimals
            &&& rc.transfers@ == sell_transfers(accounts, special, before.reserve_denom, seller)
        },
    }
}

/// Settles a sale of `amount` tokens by `info.sender`, whose tokens the
/// caller has burned on the ledger. On success the curve state takes the new
/// reserve, supply and lifetime tax; on failure it is left as it was.
pub fn do_sell<C: Curve>(
    state: &mut CurveState,
    params: &ParamConfig,
    accounts: &AcctConfig,
    special: &DexferConfig,
    curve: &C,
    info: &MessageInfo,
    amount: u128,
) -> (r: Result<SellReceipt, ContractError>)
    requires
        curve.valid(),
    ensures
        sell_settled(
            r,
            *curve,
            *old(state),
            *final(state),
            *params,
            *accounts,
            *special,
            info.sender@,
            amount,
        ),
{
    if amount > state.supply {
        return overflow();
    }
    let new_supply = state.supply - amount;
    let new_reserve = match curve.reserve(new_supply) {
        Some(x) => x,
        None => return overflow(),
    };
    if new_reserve > state.reserve {
        return overflow();
    }
    let released = state.reserve - new_reserve;
    let mut tax: u128 = 0;
    let mut tax_split: Option<TaxSplit> = None;
    let mut tax_collected = state.tax_collected;
    let dexfer = special.dexfer_manager == info.sender;
    if !(dexfer || special.tax_exempt == info.sender) {
        let t = match per_mille_of(released, params.tax_percent) {
            Ok(x) => x,
            Err(e) => return Err(e),
        };
        if t > released {
            return overflow();
        }
        let split = match split_tax(t, params) {
            Ok(s) => s,
            Err(e) => return Err(e),
        };
        tax_collected = match tax_collected.checked_add(t) {
            Some(x) => x,
            None => return overflow(),
        };
        tax = t;
        tax_split = Some(split);
    }
    let amounts = SellAmounts {
        burned: amount,
        released,
        tax,
        tax_split,
        net_released: 0,
        reserve: new_reserve,
        supply: new_supply,
        tax_collected,
    };
    let mut transfers: Vec<Transfer> = Vec::new();
    if dexfer {
        transfers.push(
            Transfer {
                to_address: special.dexfer_manager.clone(),
                denom: state.reserve_denom.clone(),
                amount: DEXFER_MARKER,
            },
        );
    } else {
        transfers.push(
            Transfer {
                to_address: accounts.unstake_acct.clone(),
                denom: state.reserve_denom.clone(),
                amount: UNSTAKE_MARKER,
            },
        );
    }
    assert(transfers@ =~= sell_transfers(*accounts, *special, state.reserve_denom, info.sender@));
    state.reserve = new_reserve;
    state.supply = new_supply;
    state.tax_collected = tax_collected;
    Ok(SellReceipt { amounts, transfers })
}

/// The checks before a sale of one's own tokens: the sell switch must let
/// the caller through, and no funds may come with the call.
pub fn authorize_sell(safety: &SafetyConfig, info: &MessageInfo) -> (r: Result<(), ContractError>)
    ensures
        !switch_allows(safety.can_sell@, info.sender@) ==> r == Err::<(), ContractError>(
            ContractError::BurnPaused {  },
        ),
        switch_allows(safety.can_sell@, info.sender@) ==> r == match nonpayable_spec(info.funds@) {
            Ok(()) => Ok::<(), ContractError>(()),
            Err(e) => Err(ContractError::Payment(e)),
        },
{
    if !allows(&safety.can_sell, &info.sender) {
        return Err(ContractError::BurnPaused {  });
    }
    match nonpayable(info) {
        Ok(()) => Ok(()),
        Err(e) => Err(ContractError::Payment(e)),
    }
}

/// Sells the caller's own tokens (burned on the ledger by the caller).
pub fn execute_sell<C: Curve>(
    state: &mut CurveState,
    params: &ParamConfig,
    accounts: &AcctConfig,
    special: &DexferConfig,
    safety: &SafetyConfig,
    curve: &C,
    info: &MessageInfo,
    amount: u128,
) -> (r: Result<SellReceipt, ContractError>)
    requires
        curve.valid(),
    ensures
        !switch_allows(safety.can_sell@, info.sender@) ==> r == Err::<SellReceipt, ContractError>(
            ContractError::BurnPaused {  },
        ) && *final(state) == *old(state),
        switch_allows(safety.can_sell@, info.sender@) && info.funds.len() != 0 ==> r == Err::<
            SellReceipt,
            ContractError,
        >(ContractError::Payment(PaymentError::NonPayable {  })) && *final(state) == *old(state),
        switch_allows(safety.can_sell@, info.sender@) && info.funds.len() == 0 ==> sell_settled(
            r,
            *curve,
            *old(state),
            *final(state),
            *params,
            *accounts,
            *special,
            info.sender@,
            amount,
        ),
{
    match authorize_sell(safety, info) {
        Ok(()) => {},
        Err(e) => return Err(e),
    }
    do_sell(state, params, accounts, special, curve, info, amount)
}

/// Sells `owner`'s tokens on behalf of the caller, whose allowance the
/// caller of this function deducts and whose tokens it burns once this
/// succeeds. As for any sale, the sell switch must let the caller through
/// and no funds may come with the call.
pub fn execute_sell_from<C: Curve>(
    state: &mut CurveState,
    params: &ParamConfig,
    accounts: &AcctConfig,
    special: &DexferConfig,
    safety: &SafetyConfig,
    curve: &C,
    info: &MessageInfo,
    owner: &String,
    amount: u128,
) -> (r: Result<SellReceipt, ContractError>)
    requires
        curve.valid(),
    ensures
        !switch_allows(safety.can_sell@, info.sender@) ==> r == Err::<SellReceipt, ContractError>(
            ContractError::BurnPaused {  },
        ) && *final(state) == *old(state),
        switch_allows(safety.can_sell@, info.sender@) && info.funds.len() != 0 ==> r == Err::<
            SellReceipt,
            ContractError,
        >(ContractError::Payment(PaymentError::NonPayable {  })) && *final(state) == *old(state),
        switch_allows(safety.can_sell@, info.sender@) && info.funds.len() == 0 ==> sell_settled(
            r,
            *curve,
            *old(state),
            *final(state),
            *params,
            *accounts,
            *special,
            owner@,
            amount,
        ),
{
    match authorize_sell(safety, info) {
        Ok(()) => {},
        Err(e) => return Err(e),
    }
    let owner_info = MessageInfo { sender: owner.clone(), funds: Vec::new() };
    do_sell(state, params, accounts, special, curve, &owner_info, amount)
}

/// The caller is the owner.
pub open spec fn is_owner(accounts: AcctConfig, sender: Seq<char>) -> bool {
    accounts.owner@ == sender
}

/// Replaces the fee percentages and presale price; owner only.
pub fn execute_update_paramconfig(
    accounts: &AcctConfig,
    info: &MessageInfo,
    yield_percent: u32,
    burn_percent: u32,
    social_percent: u32,
    expense_percent: u32,
    affiliate_percent: u32,
    tax_percent: u32,
    presale_price: u32,
) -> (r: Result<ParamConfig, ContractError>)
    ensures
        !is_owner(*accounts, info.sender@) ==> r == Err::<ParamConfig, ContractError>(
            ContractError::Unauthorized {  },
        ),
        is_owner(*accounts, info.sender@) ==> r == Ok::<ParamConfig, ContractError>(
            ParamConfig {
                yield_percent,
                burn_percent,
                social_percent,
                expense_percent,
                affiliate_percent,
                tax_percent,
                presale_price,
            },
        ),
{
    if accounts.owner != info.sender {
        return Err(ContractError::Unauthorized {  });
    }
    Ok(
        ParamConfig {
            yield_percent,
            burn_percent,
            social_percent,
            expense_percent,
            affiliate_percent,
            tax_percent,
            presale_price,
        },
    )
}

/// Replaces the routing accounts, keeping the owner; owner only.
pub fn execute_update_acctconfig(
    accounts: &AcctConfig,
    info: &MessageInfo,
    presale_acct: String,
    yield_acct: String,
    burn_acct: String,
    social_acct: String,
    expense_acct: String,
    stake_acct: String,
    unstake_acct: String,
) -> (r: Result<AcctConfig, ContractError>)
    ensures
        !is_owner(*accounts, info.sender@) ==> r == Err::<AcctConfig, ContractError>(
            ContractError::Unauthorized {  },
        ),
        is_owner(*accounts, info.sender@) ==> r == Ok::<AcctConfig, ContractError>(
            AcctConfig {
                owner: accounts.owner,
                presale_acct,
                yield_acct,
                burn_acct,
                social_acct,
                expense_acct,
                stake_acct,
                unstake_acct,
            },
        ),
{
    if accounts.owner != info.sender {
        return Err(ContractError::Unauthorized {  });
    }
    Ok(
        AcctConfig {
            owner: accounts.owner.clone(),
            presale_acct,
            yield_acct,
            burn_acct,
            social_acct,
            expense_acct,
            stake_acct,
            unstake_acct,
        },
    )
}

/// Replaces the liquidity-transfer settings; owner only.
pub fn execute_update_dexferconfig(
    accounts: &AcctConfig,
    info: &MessageInfo,
    dexfer_manager: String,
    deposit_percent: u32,
    tax_exempt: String,
    token_minter: String,
) -> (r: Result<DexferConfig, ContractError>)
    ensures
        !is_owner(*accounts, info.sender@) ==> r == Err::<DexferConfig, ContractError>(
            ContractError::Unauthorized {  },
        ),
        is_owner(*accounts, info.sender@) ==> r == Ok::<DexferConfig, ContractError>(
            DexferConfig { dexfer_manager, deposit_percent, tax_exempt, token_minter },
        ),
{
    if accounts.owner != info.sender {
        return Err(ContractError::Unauthorized {  });
    }
    Ok(DexferConfig { dexfer_manager, deposit_percent, tax_exempt, token_minter })
}

/// Replaces the buy and sell switches; owner only.
pub fn execute_update_safetyconfig(
    accounts: &AcctConfig,
    info: &MessageInfo,
    can_buy: String,
    can_sell: String,
) -> (r: Result<SafetyConfig, ContractError>)
    ensures
        !is_owner(*accounts, info.sender@) ==> r == Err::<SafetyConfig, ContractError>(
            ContractError::Unauthorized {  },
        ),
        is_owner(*accounts, info.sender@) ==> r == Ok::<SafetyConfig, ContractError>(
            SafetyConfig { can_buy, can_sell },
        ),
{
    if accounts.owner != info.sender {
        return Err(ContractError::Unauthorized {  });
    }
    Ok(SafetyConfig { can_buy, can_sell })
}

/// Who may mint on the token ledger, and the cap on the supply.
#[derive(Clone, Debug, PartialEq, Eq)]
pub struct MinterData {
    pub minter: String,
    pub cap: Option<u128>,
}

/// The ledger's new minter: `new_minter` with the current cap, or no minter
/// at all when none is given. Refused unless there is a current minter and
/// the caller is the owner.
pub fn execute_update_minter(
    accounts: &AcctConfig,
    info: &MessageInfo,
    current: &Option<MinterData>,
    new_minter: Option<String>,
) -> (r: Result<Option<MinterData>, ContractError>)
    ensures
        (current is None || !is_owner(*accounts, info.sender@)) ==> r == Err::<
            Option<MinterData>,
            ContractError,
        >(ContractError::Unauthorized {  }),
        (current is Some && is_owner(*accounts, info.sender@)) ==> r == Ok::<
            Option<MinterData>,
            ContractError,
        >(
            match new_minter {
                Some(n) => Some(MinterData { minter: n, cap: current->0.cap }),
                None => None,
            },
        ),
{
    let cap = match current {
        Some(m) => m.cap,
        None => return Err(ContractError::Unauthorized {  }),
    };
    if accounts.owner != info.sender {
        return Err(ContractError::Unauthorized {  });
    }
    match new_minter {
        Some(minter) => Ok(Some(MinterData { minter, cap })),
        None => Ok(None),
    }
}

/// Reserve, supply, spot price at the current supply, reserve currency and
/// lifetime tax; overflow when the spot price cannot be computed.
pub fn query_curve_info<C: Curve>(state: &CurveState, curve: &C) -> (r: Result<
    CurveInfoResponse,
    ContractError,
>)
    requires
        curve.valid(),
    ensures
        curve.spot_price_spec(state.supply) matches Some(p) ==> r == Ok::<
            CurveInfoResponse,
            ContractError,
        >(
            CurveInfoResponse {
                reserve: state.reserve,
                supply: state.supply,
                spot_price: p,
                reserve_denom: state.reserve_denom,
                tax_collected: state.tax_collected,
            },
        ),
        curve.spot_price_spec(state.supply) is None ==> r == Err::<
            CurveInfoResponse,
            ContractError,
        >(ContractError::Overflow {  }),
{
    let spot_price = match curve.spot_price(state.supply) {
        Some(p) => p,
        None => return overflow(),
    };
    Ok(
        CurveInfoResponse {
            reserve: state.reserve,
            supply: state.supply,
            spot_price,
            reserve_denom: state.reserve_denom.clone(),
            tax_collected: state.tax_collected,
        },
    )
}

pub fn query_paraminfo(config: &ParamConfig) -> (r: ParamInfoResponse)
    ensures
        r == (ParamInfoResponse {
            yield_percent: config.yield_percent,
            burn_percent: config.burn_percent,
            social_percent: config.social_percent,
            expense_percent: config.expense_percent,
            affiliate_percent: config.affiliate_percent,
            tax_percent: config.tax_percent,
            presale_price: config.presale_price,
        }),
{
    ParamInfoResponse {
        yield_percent: config.yield_percent,
        burn_percent: config.burn_percent,
        social_percent: config.social_percent,
        expense_percent: config.expense_percent,
        affiliate_percent: config.affiliate_percent,
        tax_percent: config.tax_percent,
        presale_price: config.presale_price,
    }
}

pub fn query_acctinfo(config: &AcctConfig) -> (r: AcctInfoResponse)
    ensures
        r == (AcctInfoResponse {
            owner: config.owner,
            presale_acct: config.presale_acct,
            yield_acct: config.yield_acct,
            burn_acct: config.burn_acct,
            social_acct: config.social_acct,
            expense_acct: config.expense_acct,
            stake_acct: config.stake_acct,
            unstake_acct: config.unstake_acct,
        }),
{
    AcctInfoResponse {
        owner: config.owner.clone(),
        presale_acct: config.presale_acct.clone(),
        yield_acct: config.yield_acct.clone(),
        burn_acct: config.burn_acct.clone(),
        social_acct: config.social_acct.clone(),
        expense_acct: config.expense_acct.clone(),
        stake_acct: config.stake_acct.clone(),
        unstake_acct: config.unstake_acct.clone(),
    }
}

pub fn query_dexferinfo(config: &DexferConfig) -> (r: DexferInfoResponse)
    ensures
        r == (DexferInfoResponse {
            dexfer_manager: config.dexfer_manager,
            deposit_percent: config.deposit_percent,
            tax_exempt: config.tax_exempt,
            token_minter: config.token_minter,
        }),
{
    DexferInfoResponse {
        dexfer_manager: config.dexfer_manager.clone(),
        deposit_percent: config.deposit_percent,
        tax_exempt: config.tax_exempt.clone(),
        token_minter: config.token_minter.clone(),
    }
}

pub fn query_safetyinfo(config: &SafetyConfig) -> (r: SafetyInfoResponse)
    ensures
        r == (SafetyInfoResponse { can_buy: config.can_buy, can_sell: config.can_sell }),
{
    SafetyInfoResponse { can_buy: config.can_buy.clone(), can_sell: config.can_sell.clone() }
}

/// The records a new contract starts with.
#[derive(Clone, Debug, PartialEq, Eq)]
pub struct Instantiated {
    pub curve_state: CurveState,
    pub curve_type: CurveType,
    pub params: ParamConfig,
    pub accounts: AcctConfig,
    pub dexfer: DexferConfig,
    pub safety: SafetyConfig,
}

/// Presale price a new contract starts with.
pub const INITIAL_PRESALE_PRICE: u32 = 200;

/// The starting records: no fees, a presale price of 200, the creator as
/// owner and as the only one who may buy or sell, every routing account and
/// role unset (`"none"`), this contract as minter, and an empty curve.
/// Refused when funds come with the call.
pub fn instantiate(info: &MessageInfo, msg: &InstantiateMsg) -> (r: Result<
    Instantiated,
    ContractError,
>)
    ensures
        info.funds.len() != 0 ==> r == Err::<Instantiated, ContractError>(
            ContractError::Payment(PaymentError::NonPayable {  }),
        ),
        info.funds.len() == 0 ==> (r matches Ok(i) && {
            &&& i.params == ParamConfig {
                yield_percent: 0,
                burn_percent: 0,
                social_percent: 0,
                expense_percent: 0,
                affiliate_percent: 0,
                tax_percent: 0,
                presale_price: INITIAL_PRESALE_PRICE,
            }
            &&& i.accounts.owner == info.sender
            &&& i.accounts.presale_acct@ == "none"@
            &&& i.accounts.yield_acct@ == "none"@
            &&& i.accounts.burn_acct@ == "none"@
            &&& i.accounts.social_acct@ == "none"@
            &&& i.accounts.expense_acct@ == "none"@
            &&& i.accounts.stake_acct@ == "none"@
            &&& i.accounts.unstake_acct@ == "none"@
            &&& i.dexfer.dexfer_manager@ == "none"@
            &&& i.dexfer.deposit_percent == 0
            &&& i.dexfer.tax_exempt@ == "none"@
            &&& i.dexfer.token_minter@ == contract_minter()
            &&& i.safety.can_buy == info.sender
            &&& i.safety.can_sell == info.sender
            &&& i.curve_state == CurveState {
                reserve: 0,
                supply: 0,
                reserve_denom: msg.reserve_denom,
                decimals: DecimalPlaces { supply: msg.decimals as u32, reserve: msg.reserve_decimals as u32 },
                tax_collected: 0,
            }
            &&& i.curve_type == msg.curve_type
        }),
{
    match nonpayable(info) {
        Ok(()) => {},
        Err(e) => return Err(ContractError::Payment(e)),
    }
    let params = ParamConfig {
        yield_percent: 0,
        burn_percent: 0,
        social_percent: 0,
        expense_percent: 0,
        affiliate_percent: 0,
        tax_percent: 0,
        presale_price: INITIAL_PRESALE_PRICE,
    };
    let accounts = AcctConfig {
        owner: info.sender.clone(),
        presale_acct: "none".to_owned(),
        yield_acct: "none".to_owned(),
        burn_acct: "none".to_owned(),
        social_acct: "none".to_owned(),
        expense_acct: "none".to_owned(),
        stake_acct: "none".to_owned(),
        unstake_acct: "none".to_owned(),
    };
    let dexfer = DexferConfig {
        dexfer_manager: "none".to_owned(),
        deposit_percent: 0,
        tax_exempt: "none".to_owned(),
        token_minter: "contract".to_owned(),
    };
    let safety = SafetyConfig { can_buy: info.sender.clone(), can_sell: info.sender.clone() };
    let places = DecimalPlaces::new(msg.decimals, msg.reserve_decimals);
    let curve_state = CurveState::new(msg.reserve_denom.clone(), places);
    Ok(Instantiated { curve_state, curve_type: msg.curve_type, params, accounts, dexfer, safety })
}

/// Presale boundary: while a presale runs, a purchase by anyone but the
/// liquidity-transfer role whose remaining payment (after the fee, tax and
/// affiliate steps) is below twice the presale price is refused as too
/// little; one of at least twice the price is never refused as too little,
/// and when it goes through it mints the payment's worth at the presale
/// rate. Exactly twice the price mints two whole tokens (two million units),
/// and goes through whenever the curve prices those tokens within the payment
/// (and this contract is the minter).
pub proof fn presale_boundary<C: Curve>(
    curve: C,
    params: ParamConfig,
    special: DexferConfig,
    sender: Seq<char>,
    a: BuyAmounts,
    payment: u128,
)
    requires
        params.presale_price > 0,
        !is_dexfer(special, sender),
    ensures
        payment < 2 * params.presale_price ==> buy_mint_spec(curve, params, special, sender, a, payment)
            == Err::<BuyAmounts, ContractError>(ContractError::TooLittle {  }),
        payment >= 2 * params.presale_price ==> buy_mint_spec(
            curve,
            params,
            special,
            sender,
            a,
            payment,
        ) != Err::<BuyAmounts, ContractError>(ContractError::TooLittle {  }),
        buy_mint_spec(curve, params, special, sender, a, payment) matches Ok(b) ==> b.minted
            == presale_tokens(payment as int, params.presale_price as int) && b.presale_fund
            is Some,
        presale_tokens(2 * params.presale_price, params.presale_price as int) == 2_000_000,
        (payment == 2 * params.presale_price && special.token_minter@ == contract_minter()
            && a.supply + 2_000_000 <= u128::MAX && (curve.reserve_spec(a.supply) matches Some(
            before) && (curve.reserve_spec((a.supply + 2_000_000) as u128) matches Some(after)
            && before <= after && after - before <= payment && a.reserve + (after - before)
            <= u128::MAX))) ==> (buy_mint_spec(curve, params, special, sender, a, payment) matches Ok(
            b) && b.minted == 2_000_000),
{
    let p = params.presale_price as int;
    assert((2 * p * 100) / p == 200) by (nonlinear_arith)
        requires
            p > 0,
    ;
}

/// Safety switch: the open value `"1"` lets every caller through; a switch
/// naming one address lets only that address through. A purchase the buy
/// switch does not let through is refused as paused minting, and only such
/// a purchase is.
pub proof fn safety_switch<C: Curve>(
    curve: C,
    state: CurveState,
    params: ParamConfig,
    special: DexferConfig,
    safety: SafetyConfig,
    info: MessageInfo,
    affiliate: Seq<char>,
    other: Seq<char>,
)
    ensures
        switch_allows("1"@, other),
        safety.can_buy@ != "1"@ ==> (switch_allows(safety.can_buy@, other) <==> other
            == safety.can_buy@),
        !switch_allows(safety.can_buy@, info.sender@) <==> buy_spec(
            curve,
            state,
            params,
            special,
            safety,
            info,
            affiliate,
        ) == Err::<BuyAmounts, ContractError>(ContractError::MintPaused {  }),
{
}

} // verus!
