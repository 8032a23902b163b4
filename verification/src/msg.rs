//! Command and query records of the reward distributor's interface.
//!
//! Each public operation is invoked through a tagged command; each query
//! returns a plain record.  The host decodes the wire format and hands
//! these values to the core.

use vstd::prelude::*;

verus! {

/// Everything needed to set up a reward distributor.
#[derive(Clone, Debug)]
pub struct InstantiateMsg {
    pub hub_contract: String,
    pub reward_denom: String,
    pub astroport_addr: String,
    pub phoenix_addr: String,
    pub terraswap_addr: String,
    /// Known tokens that may be swapped into the reward denomination.
    pub known_tokens: Vec<String>,
}

/// The commands of the reward distributor.
#[derive(Clone, Debug)]
pub enum ExecuteMsg {
    /// Swap all held balances into the reward denomination.
    SwapToRewardDenom {},
    /// Update the distributor's configuration.
    UpdateConfig {
        custody_contract: Option<String>,
        known_tokens: Option<Vec<String>>,
        owner: Option<String>,
    },
    /// Pay the accrued reward out to the caller, or to `recipient`.
    ClaimRewards { recipient: Option<String> },
}

/// The queries of the reward distributor.
#[derive(Clone, Debug)]
pub enum QueryMsg {
    Config {},
    AccruedRewards { address: String },
}

/// The response to a configuration query.
#[derive(Clone, Debug)]
pub struct ConfigResponse {
    pub hub_contract: String,
    pub reward_denom: String,
}

/// The (empty) migration message.
#[derive(Clone, Copy, Debug, PartialEq, Eq, Structural)]
pub struct MigrateMsg {}

} // verus!
