//! Instructions emitted by the core for the host to execute.
//!
//! The core never performs an external call itself: each operation returns
//! the list of instructions it wants executed, in order, alongside its
//! updated state.  The host appends them to the operation's result after
//! all state writes, so a failure aborts the whole call before any
//! instruction is issued.

use vstd::prelude::*;

verus! {

/// A single coin: an amount of one denomination.
#[derive(Clone, Debug)]
pub struct Coin {
    pub denom: String,
    pub amount: u128,
}

/// One external call requested by the core.
#[derive(Clone, Debug)]
pub enum Instruction {
    /// Delegate `amount` of `denom` to the validator.
    Delegate { validator: String, denom: String, amount: u128 },
    /// Mint `amount` share tokens to the recipient.
    MintShares { recipient: String, amount: u128 },
    /// Pay `amount` of the reward denomination to the recipient.
    SendReward { recipient: String, denom: String, amount: u128 },
    /// Transfer `amount` of the wrapped staking token to the recipient.
    TransferLsd { recipient: String, amount: u128 },
    /// Register `address` as the withdraw address for staking rewards.
    SetWithdrawAddress { address: String },
    /// Swap the whole held amount of `offer_denom` into `ask_denom`.
    Swap { offer_denom: String, ask_denom: String },
}

} // verus!
