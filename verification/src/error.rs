//! Error kinds shared by all operations of the accounting core.
//!
//! Every detected violation aborts the whole operation before any state is
//! written back; the caller receives one of these kinds together with a
//! human-readable message.

use vstd::prelude::*;

verus! {

#[derive(Clone, Copy, Debug, PartialEq, Eq, Structural)]
pub enum ContractError {
    /// The attached funds are malformed: more than one denomination, or
    /// the required denomination is absent or zero.
    InvalidDeposit,
    /// A required registration (token or registry contract) is missing.
    ConfigurationError,
    /// The delegation-target set is empty.
    NoDelegationTargets,
    /// Rewards cannot be distributed while nothing is bonded.
    NoBondedAssets,
    /// An internal consistency check failed; the state must not be
    /// written and the condition is non-recoverable.
    BalanceInvariantViolation,
    /// No whole reward unit has accrued yet.
    NothingToClaim,
    /// A balance decrease exceeds the holder's balance.
    InsufficientBalance,
    /// The caller is not the registered controller for this operation.
    Unauthorized,
    /// A fixed-width arithmetic step would overflow; the operation fails
    /// explicitly instead of wrapping.
    Overflow,
}

impl ContractError {
    /// A short human-readable description of the error.
    pub fn message(&self) -> &'static str {
        match self {
            ContractError::InvalidDeposit => "invalid deposit: exactly one coin of the bonding denomination is required",
            ContractError::ConfigurationError => "a required contract registration is missing",
            ContractError::NoDelegationTargets => "the validator registry is empty",
            ContractError::NoBondedAssets => "no asset is bonded",
            ContractError::BalanceInvariantViolation => "internal balance invariant violated",
            ContractError::NothingToClaim => "no rewards have accrued yet",
            ContractError::InsufficientBalance => "decrease amount cannot exceed the balance",
            ContractError::Unauthorized => "unauthorized",
            ContractError::Overflow => "arithmetic overflow",
        }
    }
}

} // verus!
