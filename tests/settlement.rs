use cw20_bonding::contract::{
    allows, authorize_sell, do_sell, execute_buy, execute_sell, execute_sell_from,
    execute_update_acctconfig, execute_update_dexferconfig, execute_update_minter,
    execute_update_paramconfig, execute_update_safetyconfig, instantiate, must_pay, nonpayable,
    one_coin, per_mille_of, query_acctinfo, query_curve_info, query_dexferinfo, query_paraminfo,
    query_safetyinfo, split_tax, Coin, MessageInfo, MinterData, TaxSplit, Transfer,
};
use cw20_bonding::curves::{Constant, DecimalPlaces, Linear};
use cw20_bonding::error::{ContractError, PaymentError};
use cw20_bonding::msg::{CurveType, InstantiateMsg};
use cw20_bonding::numeric::Decimal;
use cw20_bonding::state::{AcctConfig, CurveState, DexferConfig, ParamConfig, SafetyConfig};

fn s(x: &str) -> String {
    x.to_string()
}

fn empty_state(places: DecimalPlaces) -> CurveState {
    CurveState::new(s("uluna"), places)
}

fn params(tax: u32, presale: u32) -> ParamConfig {
    ParamConfig {
        yield_percent: 0,
        burn_percent: 0,
        social_percent: 0,
        expense_percent: 0,
        affiliate_percent: 0,
        tax_percent: tax,
        presale_price: presale,
    }
}

fn accounts() -> AcctConfig {
    AcctConfig {
        owner: s("owner"),
        presale_acct: s("presale"),
        yield_acct: s("yield"),
        burn_acct: s("burn"),
        social_acct: s("social"),
        expense_acct: s("expense"),
        stake_acct: s("stake"),
        unstake_acct: s("unstake"),
    }
}

fn special(deposit: u32) -> DexferConfig {
    DexferConfig {
        dexfer_manager: s("dex"),
        deposit_percent: deposit,
        tax_exempt: s("exempt"),
        token_minter: s("contract"),
    }
}

fn open() -> SafetyConfig {
    SafetyConfig { can_buy: s("1"), can_sell: s("1") }
}

fn pay(sender: &str, amount: u128) -> MessageInfo {
    MessageInfo { sender: s(sender), funds: vec![Coin { denom: s("uluna"), amount }] }
}

fn no_funds(sender: &str) -> MessageInfo {
    MessageInfo { sender: s(sender), funds: vec![] }
}

fn t(to: &str, amount: u128) -> Transfer {
    Transfer { to_address: s(to), denom: s("uluna"), amount }
}

fn linear_whole() -> Linear {
    Linear::new(Decimal { num: 1, scale: 0 }, DecimalPlaces::new(0, 0))
}

fn zero_taxes() -> Vec<Transfer> {
    vec![t("yield", 0), t("burn", 0), t("social", 0), t("expense", 0)]
}

#[test]
fn linear_buy_scenario() {
    let mut state = empty_state(DecimalPlaces::new(0, 0));
    let curve = linear_whole();
    // 5026 sent leaves 5000 after the 0.5% protocol fee
    let rc = execute_buy(&mut state, &params(0, 0), &accounts(), &special(0), &open(), &curve,
        &pay("buyer", 5026), &s("")).unwrap();
    assert_eq!(rc.amounts.minted, 100);
    assert_eq!(rc.amounts.gross, 5026);
    assert_eq!(rc.amounts.routed, 5000);
    assert_eq!(state.reserve, 5000);
    assert_eq!(state.supply, 100);
    let mut expected = zero_taxes();
    expected.push(t("stake", 5000));
    assert_eq!(rc.transfers, expected);
}

#[test]
fn buy_of_exactly_5000_pays_the_fee() {
    let mut state = empty_state(DecimalPlaces::new(0, 0));
    let rc = execute_buy(&mut state, &params(0, 0), &accounts(), &special(0), &open(),
        &linear_whole(), &pay("buyer", 5000), &s("")).unwrap();
    assert_eq!(state.reserve, 4975);
    assert_eq!(rc.amounts.minted, 99);
    assert_eq!(state.supply, 99);
}

#[test]
fn buy_with_tax_split() {
    let mut state = empty_state(DecimalPlaces::new(0, 0));
    let mut p = params(100, 0);
    p.yield_percent = 400;
    p.burn_percent = 300;
    p.social_percent = 200;
    let rc = execute_buy(&mut state, &p, &accounts(), &special(0), &open(), &linear_whole(),
        &pay("buyer", 10050), &s("")).unwrap();
    assert_eq!(rc.amounts.tax, 999);
    assert_eq!(rc.amounts.tax_split, Some(TaxSplit { yield_amt: 399, burn_amt: 299, social_amt: 199, expense_amt: 102 }));
    assert_eq!(state.tax_collected, 999);
    assert_eq!(state.reserve, 9000);
    assert_eq!(state.supply, 134);
    assert_eq!(rc.transfers, vec![t("yield", 399), t("burn", 299), t("social", 199), t("expense", 102), t("stake", 9000)]);
}

#[test]
fn buy_with_affiliate() {
    let mut state = empty_state(DecimalPlaces::new(0, 0));
    let mut p = params(0, 0);
    p.affiliate_percent = 50;
    let rc = execute_buy(&mut state, &p, &accounts(), &special(0), &open(), &linear_whole(),
        &pay("buyer", 10050), &s("aff")).unwrap();
    assert_eq!(rc.amounts.affiliate_reward, Some(499));
    assert_eq!(state.reserve, 9500);
    assert_eq!(state.supply, 137);
    let mut expected = zero_taxes();
    expected.push(t("aff", 499));
    expected.push(t("stake", 9500));
    assert_eq!(rc.transfers, expected);
}

#[test]
fn exempt_buyer_pays_no_tax_and_no_affiliate() {
    let mut state = empty_state(DecimalPlaces::new(0, 0));
    let mut p = params(100, 0);
    p.affiliate_percent = 50;
    let rc = execute_buy(&mut state, &p, &accounts(), &special(0), &open(), &linear_whole(),
        &pay("exempt", 10050), &s("aff")).unwrap();
    assert_eq!(rc.amounts.tax, 0);
    assert_eq!(rc.amounts.tax_split, None);
    assert_eq!(rc.amounts.affiliate_reward, None);
    assert_eq!(rc.transfers, vec![t("stake", 9999)]);
    assert_eq!(state.reserve, 9999);
}

#[test]
fn dexfer_buy_rides_the_curve_and_gets_funds_back() {
    let mut state = empty_state(DecimalPlaces::new(0, 0));
    let rc = execute_buy(&mut state, &params(100, 200), &accounts(), &special(100), &open(),
        &linear_whole(), &pay("dex", 10050), &s("aff")).unwrap();
    assert_eq!(rc.amounts.deposit, Some(999));
    assert_eq!(rc.amounts.presale_fund, None);
    assert_eq!(state.reserve, 9999);
    assert_eq!(state.supply, 141);
    assert_eq!(rc.transfers, vec![t("dex", 9000)]);
}

fn small_linear() -> Linear {
    Linear::new(Decimal { num: 1, scale: 6 }, DecimalPlaces::new(6, 6))
}

#[test]
fn presale_at_twice_the_price_succeeds() {
    let mut state = empty_state(DecimalPlaces::new(6, 6));
    // 403 sent leaves 400 = 2 * 200 after the fee
    let rc = execute_buy(&mut state, &params(0, 200), &accounts(), &special(0), &open(),
        &small_linear(), &pay("buyer", 403), &s("")).unwrap();
    assert_eq!(rc.amounts.minted, 2_000_000);
    assert_eq!(rc.amounts.presale_fund, Some(398));
    assert_eq!(rc.amounts.routed, 2);
    assert_eq!(state.supply, 2_000_000);
    assert_eq!(state.reserve, 2);
    assert_eq!(rc.transfers, vec![t("presale", 398), t("stake", 2)]);
}

#[test]
fn presale_below_twice_the_price_is_too_little() {
    let mut state = empty_state(DecimalPlaces::new(6, 6));
    let before = state.clone();
    let r = execute_buy(&mut state, &params(0, 200), &accounts(), &special(0), &open(),
        &small_linear(), &pay("buyer", 402), &s(""));
    assert_eq!(r.unwrap_err(), ContractError::TooLittle {});
    assert_eq!(state, before);
}

#[test]
fn presale_over_when_curve_price_exceeds_it() {
    let mut state = empty_state(DecimalPlaces::new(0, 0));
    let curve = Constant::new(Decimal { num: 1, scale: 0 }, DecimalPlaces::new(0, 0));
    let r = execute_buy(&mut state, &params(0, 200), &accounts(), &special(0), &open(), &curve,
        &pay("buyer", 1000), &s(""));
    assert_eq!(r.unwrap_err(), ContractError::PreSaleOver {});
}

#[test]
fn buy_switch() {
    let switch = SafetyConfig { can_buy: s("alice"), can_sell: s("1") };
    let mut state = empty_state(DecimalPlaces::new(0, 0));
    let r = execute_buy(&mut state, &params(0, 0), &accounts(), &special(0), &switch,
        &linear_whole(), &pay("bob", 5026), &s(""));
    assert_eq!(r.unwrap_err(), ContractError::MintPaused {});
    assert_eq!(state.supply, 0);
    let r = execute_buy(&mut state, &params(0, 0), &accounts(), &special(0), &switch,
        &linear_whole(), &pay("alice", 5026), &s(""));
    assert!(r.is_ok());
    assert!(allows(&s("1"), &s("anyone")));
    assert!(allows(&s("alice"), &s("alice")));
    assert!(!allows(&s("alice"), &s("bob")));
}

#[test]
fn sell_switch() {
    let switch = SafetyConfig { can_buy: s("1"), can_sell: s("alice") };
    let mut state = empty_state(DecimalPlaces::new(0, 0));
    execute_buy(&mut state, &params(0, 0), &accounts(), &special(0), &switch, &linear_whole(),
        &pay("bob", 5026), &s("")).unwrap();
    let r = execute_sell(&mut state, &params(0, 0), &accounts(), &special(0), &switch,
        &linear_whole(), &no_funds("bob"), 10);
    assert_eq!(r.unwrap_err(), ContractError::BurnPaused {});
    assert_eq!(authorize_sell(&switch, &no_funds("alice")), Ok(()));
    assert!(execute_sell(&mut state, &params(0, 0), &accounts(), &special(0), &switch,
        &linear_whole(), &no_funds("alice"), 10).is_ok());
    assert_eq!(state.supply, 90);
}

#[test]
fn payment_errors() {
    let mut state = empty_state(DecimalPlaces::new(0, 0));
    let run = |state: &mut CurveState, info: MessageInfo| {
        execute_buy(state, &params(0, 0), &accounts(), &special(0), &open(), &linear_whole(), &info, &s(""))
    };
    assert_eq!(run(&mut state, no_funds("b")).unwrap_err(), ContractError::Payment(PaymentError::NoFunds {}));
    assert_eq!(run(&mut state, pay("b", 0)).unwrap_err(), ContractError::Payment(PaymentError::NoFunds {}));
    let two = MessageInfo { sender: s("b"), funds: vec![Coin { denom: s("uluna"), amount: 1 }, Coin { denom: s("uusd"), amount: 1 }] };
    assert_eq!(run(&mut state, two).unwrap_err(), ContractError::Payment(PaymentError::MultipleDenoms {}));
    let wrong = MessageInfo { sender: s("b"), funds: vec![Coin { denom: s("uusd"), amount: 10 }] };
    assert_eq!(run(&mut state, wrong.clone()).unwrap_err(), ContractError::Payment(PaymentError::MissingDenom(s("uluna"))));
    assert_eq!(must_pay(&wrong, &s("uusd")), Ok(10));
    assert_eq!(one_coin(&wrong), Ok(Coin { denom: s("uusd"), amount: 10 }));
    assert_eq!(nonpayable(&wrong), Err(PaymentError::NonPayable {}));
    assert_eq!(nonpayable(&no_funds("b")), Ok(()));
}

#[test]
fn wrong_minter_leaves_state() {
    let mut state = empty_state(DecimalPlaces::new(0, 0));
    let mut sp = special(0);
    sp.token_minter = s("somebody");
    let r = execute_buy(&mut state, &params(0, 0), &accounts(), &sp, &open(), &linear_whole(),
        &pay("buyer", 5026), &s(""));
    assert_eq!(r.unwrap_err(), ContractError::WrongMinter {});
    assert_eq!(state, empty_state(DecimalPlaces::new(0, 0)));
}

#[test]
fn fee_overflow_is_an_error() {
    let mut state = empty_state(DecimalPlaces::new(0, 0));
    let r = execute_buy(&mut state, &params(0, 0), &accounts(), &special(0), &open(),
        &linear_whole(), &pay("buyer", u128::MAX), &s(""));
    assert_eq!(r.unwrap_err(), ContractError::Overflow {});
}

#[test]
fn sell_releases_reserve_and_records_tax() {
    let mut state = empty_state(DecimalPlaces::new(0, 0));
    let mut p = params(0, 0);
    execute_buy(&mut state, &p, &accounts(), &special(0), &open(), &linear_whole(),
        &pay("buyer", 5026), &s("")).unwrap();
    p.tax_percent = 100;
    p.yield_percent = 500;
    let rc = execute_sell(&mut state, &p, &accounts(), &special(0), &open(), &linear_whole(),
        &no_funds("buyer"), 100).unwrap();
    assert_eq!(rc.amounts.burned, 100);
    assert_eq!(rc.amounts.released, 5000);
    assert_eq!(rc.amounts.tax, 500);
    assert_eq!(rc.amounts.tax_split, Some(TaxSplit { yield_amt: 250, burn_amt: 0, social_amt: 0, expense_amt: 250 }));
    assert_eq!(rc.amounts.net_released, 0);
    assert_eq!(state.reserve, 0);
    assert_eq!(state.supply, 0);
    assert_eq!(state.tax_collected, 500);
    assert_eq!(rc.transfers, vec![t("unstake", 101)]);
}

#[test]
fn dexfer_sell_sends_its_marker() {
    let mut state = empty_state(DecimalPlaces::new(0, 0));
    execute_buy(&mut state, &params(0, 0), &accounts(), &special(0), &open(), &linear_whole(),
        &pay("buyer", 5026), &s("")).unwrap();
    let rc = do_sell(&mut state, &params(100, 0), &accounts(), &special(0), &linear_whole(),
        &no_funds("dex"), 50).unwrap();
    assert_eq!(rc.amounts.tax, 0);
    assert_eq!(rc.amounts.released, 5000 - 1250);
    assert_eq!(rc.transfers, vec![t("dex", 102)]);
}

#[test]
fn sell_errors() {
    let mut state = empty_state(DecimalPlaces::new(0, 0));
    let r = execute_sell(&mut state, &params(0, 0), &accounts(), &special(0), &open(),
        &linear_whole(), &pay("buyer", 1), 1);
    assert_eq!(r.unwrap_err(), ContractError::Payment(PaymentError::NonPayable {}));
    let r = execute_sell(&mut state, &params(0, 0), &accounts(), &special(0), &open(),
        &linear_whole(), &no_funds("buyer"), 1);
    assert_eq!(r.unwrap_err(), ContractError::Overflow {});
}

#[test]
fn sell_from_uses_the_owner_and_checks_the_switch() {
    let closed = SafetyConfig { can_buy: s("1"), can_sell: s("nobody") };
    let mut state = empty_state(DecimalPlaces::new(0, 0));
    execute_buy(&mut state, &params(0, 0), &accounts(), &special(0), &closed, &linear_whole(),
        &pay("buyer", 5026), &s("")).unwrap();
    let before = state.clone();
    let r = execute_sell_from(&mut state, &params(0, 0), &accounts(), &special(0), &closed,
        &linear_whole(), &no_funds("spender"), &s("dex"), 100);
    assert_eq!(r.unwrap_err(), ContractError::BurnPaused {});
    assert_eq!(state, before);
    let spender_only = SafetyConfig { can_buy: s("1"), can_sell: s("spender") };
    let rc = execute_sell_from(&mut state, &params(0, 0), &accounts(), &special(0), &spender_only,
        &linear_whole(), &no_funds("spender"), &s("dex"), 100).unwrap();
    assert_eq!(rc.transfers, vec![t("dex", 102)]);
    assert_eq!(state.supply, 0);
    let r = execute_sell_from(&mut state, &params(0, 0), &accounts(), &special(0), &open(),
        &linear_whole(), &pay("spender", 3), &s("dex"), 0);
    assert_eq!(r.unwrap_err(), ContractError::Payment(PaymentError::NonPayable {}));
}

#[test]
fn tax_split_edges() {
    let mut p = params(0, 0);
    assert_eq!(split_tax(1000, &p), Ok(TaxSplit { yield_amt: 0, burn_amt: 0, social_amt: 0, expense_amt: 1000 }));
    p.yield_percent = 250;
    p.burn_percent = 250;
    p.social_percent = 250;
    assert_eq!(split_tax(1000, &p), Ok(TaxSplit { yield_amt: 250, burn_amt: 250, social_amt: 250, expense_amt: 250 }));
    let split = split_tax(999, &p).unwrap();
    assert_eq!(split.yield_amt + split.burn_amt + split.social_amt + split.expense_amt, 999);
    p.yield_percent = 1000;
    p.burn_percent = 0;
    p.social_percent = 0;
    assert_eq!(split_tax(777, &p), Ok(TaxSplit { yield_amt: 777, burn_amt: 0, social_amt: 0, expense_amt: 0 }));
    p.burn_percent = 1;
    assert_eq!(split_tax(1000, &p), Err(ContractError::Overflow {}));
    p.burn_percent = 0;
    p.yield_percent = 2000;
    assert_eq!(split_tax(10, &p), Err(ContractError::Overflow {}));
    assert_eq!(per_mille_of(12345, 100), Ok(1234));
    assert_eq!(per_mille_of(u128::MAX, 2), Err(ContractError::Overflow {}));
}

#[test]
fn owner_gated_updates() {
    let acct = accounts();
    let owner = no_funds("owner");
    let other = no_funds("mallory");
    assert_eq!(execute_update_paramconfig(&acct, &other, 1, 2, 3, 4, 5, 6, 7), Err(ContractError::Unauthorized {}));
    assert_eq!(execute_update_paramconfig(&acct, &owner, 1, 2, 3, 4, 5, 6, 7), Ok(ParamConfig {
        yield_percent: 1, burn_percent: 2, social_percent: 3, expense_percent: 4,
        affiliate_percent: 5, tax_percent: 6, presale_price: 7 }));
    let updated = execute_update_acctconfig(&acct, &owner, s("p"), s("y"), s("b"), s("so"), s("e"), s("st"), s("u")).unwrap();
    assert_eq!(updated.owner, s("owner"));
    assert_eq!(updated.stake_acct, s("st"));
    assert_eq!(execute_update_acctconfig(&acct, &other, s("p"), s("y"), s("b"), s("so"), s("e"), s("st"), s("u")), Err(ContractError::Unauthorized {}));
    assert_eq!(execute_update_dexferconfig(&acct, &owner, s("d"), 9, s("x"), s("contract")), Ok(DexferConfig {
        dexfer_manager: s("d"), deposit_percent: 9, tax_exempt: s("x"), token_minter: s("contract") }));
    assert_eq!(execute_update_dexferconfig(&acct, &other, s("d"), 9, s("x"), s("contract")), Err(ContractError::Unauthorized {}));
    assert_eq!(execute_update_safetyconfig(&acct, &owner, s("1"), s("a")), Ok(SafetyConfig { can_buy: s("1"), can_sell: s("a") }));
    assert_eq!(execute_update_safetyconfig(&acct, &other, s("1"), s("a")), Err(ContractError::Unauthorized {}));
}

#[test]
fn minter_reassignment() {
    let acct = accounts();
    let current = Some(MinterData { minter: s("contract-addr"), cap: Some(77) });
    assert_eq!(execute_update_minter(&acct, &no_funds("owner"), &current, Some(s("new"))),
        Ok(Some(MinterData { minter: s("new"), cap: Some(77) })));
    assert_eq!(execute_update_minter(&acct, &no_funds("owner"), &current, None), Ok(None));
    assert_eq!(execute_update_minter(&acct, &no_funds("mallory"), &current, None), Err(ContractError::Unauthorized {}));
    assert_eq!(execute_update_minter(&acct, &no_funds("owner"), &None, Some(s("new"))), Err(ContractError::Unauthorized {}));
}

#[test]
fn queries_read_the_records() {
    let mut state = empty_state(DecimalPlaces::new(0, 0));
    execute_buy(&mut state, &params(0, 0), &accounts(), &special(0), &open(), &linear_whole(),
        &pay("buyer", 5026), &s("")).unwrap();
    let info = query_curve_info(&state, &linear_whole()).unwrap();
    assert_eq!(info.reserve, 5000);
    assert_eq!(info.supply, 100);
    assert_eq!(info.spot_price, 100_000_000);
    assert_eq!(info.reserve_denom, s("uluna"));
    assert_eq!(query_paraminfo(&params(3, 4)).tax_percent, 3);
    assert_eq!(query_paraminfo(&params(3, 4)).presale_price, 4);
    assert_eq!(query_acctinfo(&accounts()).unstake_acct, s("unstake"));
    assert_eq!(query_dexferinfo(&special(5)).deposit_percent, 5);
    assert_eq!(query_safetyinfo(&open()).can_sell, s("1"));
}

#[test]
fn instantiate_defaults() {
    let msg = InstantiateMsg {
        name: s("Bonded"),
        symbol: s("BND"),
        decimals: 6,
        reserve_denom: s("uluna"),
        reserve_decimals: 6,
        curve_type: CurveType::Sigmoid { slope: 1, scale: 0 },
    };
    let i = instantiate(&no_funds("creator"), &msg).unwrap();
    assert_eq!(i.params, ParamConfig { yield_percent: 0, burn_percent: 0, social_percent: 0,
        expense_percent: 0, affiliate_percent: 0, tax_percent: 0, presale_price: 200 });
    assert_eq!(i.accounts.owner, s("creator"));
    assert_eq!(i.accounts.stake_acct, s("none"));
    assert_eq!(i.dexfer.token_minter, s("contract"));
    assert_eq!(i.dexfer.dexfer_manager, s("none"));
    assert_eq!(i.safety, SafetyConfig { can_buy: s("creator"), can_sell: s("creator") });
    assert_eq!(i.curve_state, CurveState::new(s("uluna"), DecimalPlaces::new(6, 6)));
    assert_eq!(i.curve_type, CurveType::Sigmoid { slope: 1, scale: 0 });
    assert_eq!(instantiate(&pay("creator", 1), &msg), Err(ContractError::Payment(PaymentError::NonPayable {})));
}
