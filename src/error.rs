//! Errors of the settlement engine and of its payment checks.

use vstd::prelude::*;

verus! {

/// What is wrong with the funds sent along with a call.
#[derive(Clone, Debug, PartialEq, Eq)]
pub enum PaymentError {
    /// The single coin sent is not of the reserve currency (named here).
    MissingDenom(String),
    /// A currency other than the reserve currency was sent.
    ExtraDenom(String),
    /// More than one currency was sent.
    MultipleDenoms {},
    /// Nothing, or a zero amount, was sent.
    NoFunds {},
    /// Funds were sent to a call that takes none.
    NonPayable {},
}

/// Why a call was refused. Every error aborts the whole call.
#[derive(Clone, Debug, PartialEq, Eq)]
pub enum ContractError {
    Payment(PaymentError),
    /// The caller is not the owner.
    Unauthorized {},
    /// The presale price is below the curve's spot price.
    PreSaleOver {},
    /// A presale purchase below twice the presale price.
    TooLittle {},
    /// The token ledger's minter is not this contract.
    WrongMinter {},
    TracePoint {},
    /// Buying is switched off for this caller.
    MintPaused {},
    /// Selling is switched off for this caller.
    BurnPaused {},
    /// Checked arithmetic overflowed or underflowed.
    Overflow {},
}

} // verus!
