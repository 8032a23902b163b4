//! Destination-specific deductions on outgoing payments.
//!
//! The host chain no longer charges a transfer tax, so the computed tax is
//! zero; the deduction step is kept so payout construction goes through
//! one place.

use vstd::prelude::*;
use crate::instr::Coin;

verus! {

/// The transfer tax charged on sending `coin`; the chain charges none.
pub fn compute_tax(_coin: &Coin) -> (r: u128)
    ensures
        r == 0,
{
    0
}

/// The coin that actually arrives when `coin` is sent: the amount net of
/// the transfer tax.
pub fn deduct_tax(coin: Coin) -> (r: Coin)
    ensures
        r.denom == coin.denom,
        r.amount == coin.amount,
{
    let tax = compute_tax(&coin);
    Coin { denom: coin.denom, amount: coin.amount - tax }
}

} // verus!
