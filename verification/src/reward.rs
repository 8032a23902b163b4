//! Cumulative-index reward distribution.
//!
//! A single global index accumulates "reward per bonded unit" as yield
//! arrives; each holder carries a checkpoint of the index at its last
//! settlement together with a fractional remainder, so an unbounded number
//! of holders can claim proportional yield in constant time per operation
//! and no fractional dust is ever lost, only deferred.

use vstd::prelude::*;
use crate::decimal::{Dec, FRAC};
use crate::error::ContractError;
use crate::instr::{Coin, Instruction};
use crate::tax::deduct_tax;
use crate::msg::{ConfigResponse, InstantiateMsg};

verus! {

/// Global distribution state: the cumulative index, the sum of all holder
/// balances it is computed over, and the reward-asset balance observed at
/// the last settlement.
#[derive(Clone, Copy, Debug, PartialEq, Eq, Structural)]
pub struct RewardState {
    /// Cumulative reward per bonded unit; never decreases.
    pub global_index: Dec,
    /// Sum of all holder balances.
    pub total_balance: u128,
    /// Reward-asset balance on hand at the last settlement, used to
    /// compute the newly arrived amount as a delta.
    pub prev_reward_balance: u128,
}

/// Per-holder checkpoint: the bonded balance, the global index at the last
/// settlement, and the accrued-but-unclaimed remainder.
#[derive(Clone, Copy, Debug, PartialEq, Eq, Structural)]
pub struct Holder {
    pub balance: u128,
    /// Value of the global index when this holder was last settled.
    pub index: Dec,
    /// Accrued rewards not yet paid out; after a claim this is strictly
    /// below one whole unit.
    pub pending_rewards: Dec,
}

impl RewardState {
    /// The state a fresh distributor starts from.
    pub fn initial() -> (r: RewardState)
        ensures
            r.global_index.val() == 0,
            r.total_balance == 0,
            r.prev_reward_balance == 0,
    {
        RewardState { global_index: Dec::zero(), total_balance: 0, prev_reward_balance: 0 }
    }

    /// A holder checkpoint is never ahead of the global index.
    pub open spec fn holder_settled(self, holder: Holder) -> bool {
        holder.index.val() <= self.global_index.val()
    }
}

impl Holder {
    /// The record created on a holder's first balance increase.
    pub fn new(index: Dec) -> (r: Holder)
        ensures
            r.balance == 0,
            r.index == index,
            r.pending_rewards.val() == 0,
    {
        Holder { balance: 0, index, pending_rewards: Dec::zero() }
    }
}

/// The rewards a holder accrued since its checkpoint: the index growth
/// scaled by the balance, in atomic units.  Exact, no rounding.
pub open spec fn accrued_delta(global_index: int, user_index: int, balance: int) -> int {
    (global_index - user_index) * balance
}

/// The reward accrued since the holder's last settlement: the index
/// growth times the balance, computed exactly.
pub fn calculate_decimal_rewards(global_index: Dec, user_index: Dec, user_balance: u128) -> (r:
    Result<Dec, ContractError>)
    requires
        user_index.val() <= global_index.val(),
    ensures
        match r {
            Ok(d) => d.val() == accrued_delta(global_index.val(), user_index.val(), user_balance as int),
            Err(e) => e == ContractError::Overflow && accrued_delta(
                global_index.val(),
                user_index.val(),
                user_balance as int,
            ) > u128::MAX,
        },
{
    let diff = match global_index.checked_sub(user_index) {
        Some(d) => d,
        None => {
            return Err(ContractError::Overflow);
        },
    };
    match diff.checked_mul_int(user_balance) {
        Some(d) => Ok(d),
        None => Err(ContractError::Overflow),
    }
}

/// The fractional part of an accrued reward: what stays pending after the
/// whole units are paid out.
pub fn get_decimals(value: Dec) -> (r: Dec)
    ensures
        r.val() == value.val() % (FRAC as int),
        r.val() < FRAC,
{
    value.frac()
}

/// Everything a holder is owed, in atomic units: the carried remainder
/// plus the delta accrued since the checkpoint.
pub open spec fn owed_atomics(state: RewardState, holder: Holder) -> int {
    holder.pending_rewards.val() + accrued_delta(
        state.global_index.val(),
        holder.index.val(),
        holder.balance as int,
    )
}

/// Settles a holder up to the given global index: moves the accrued delta
/// into the pending remainder and advances the checkpoint.  Called before
/// every balance change and before every claim, so a holder never loses
/// accrued yield across a balance change.
pub fn accrue(global_index: Dec, holder: &mut Holder) -> (r: Result<(), ContractError>)
    requires
        old(holder).index.val() <= global_index.val(),
    ensures
        match r {
            Ok(u) => {
                &&& final(holder).pending_rewards.val() == old(holder).pending_rewards.val()
                    + accrued_delta(
                    global_index.val(),
                    old(holder).index.val(),
                    old(holder).balance as int,
                )
                &&& final(holder).index == global_index
                &&& final(holder).balance == old(holder).balance
            },
            Err(e) => {
                &&& e == ContractError::Overflow
                &&& *final(holder) == *old(holder)
                &&& old(holder).pending_rewards.val() + accrued_delta(
                    global_index.val(),
                    old(holder).index.val(),
                    old(holder).balance as int,
                ) > u128::MAX
            },
        },
{
    let delta = match calculate_decimal_rewards(global_index, holder.index, holder.balance) {
        Ok(d) => d,
        Err(e) => {
            return Err(e);
        },
    };
    let pending = match holder.pending_rewards.checked_add(delta) {
        Some(p) => p,
        None => {
            return Err(ContractError::Overflow);
        },
    };
    holder.pending_rewards = pending;
    holder.index = global_index;
    Ok(())
}

/// Settles the holder, pays out the whole units of everything owed, and
/// carries the fractional remainder forward.  Returns the paid amount and
/// the single payout instruction for the host, net of transfer deductions.
pub fn execute_claim_rewards(
    state: &mut RewardState,
    holder: &mut Holder,
    recipient: String,
    reward_denom: String,
) -> (r: Result<(u128, Vec<Instruction>), ContractError>)
    requires
        old(state).holder_settled(*old(holder)),
    ensures
        match r {
            Ok(out) => {
                let all = owed_atomics(*old(state), *old(holder));
                &&& all <= u128::MAX
                &&& out.0 == all / (FRAC as int)
                &&& out.0 > 0
                &&& final(holder).pending_rewards.val() == all % (FRAC as int)
                &&& final(holder).pending_rewards.val() < FRAC
                &&& final(holder).index == old(state).global_index
                &&& final(holder).balance == old(holder).balance
                &&& final(state).prev_reward_balance == old(state).prev_reward_balance - out.0
                &&& final(state).global_index == old(state).global_index
                &&& final(state).total_balance == old(state).total_balance
                &&& out.1@.len() == 1
                &&& (out.1@[0] matches Instruction::SendReward { recipient: rec, denom, amount }
                    && rec@ == recipient@ && denom@ == reward_denom@ && amount == out.0)
            },
            Err(e) => {
                let all = owed_atomics(*old(state), *old(holder));
                let payout = all / (FRAC as int);
                &&& *final(state) == *old(state)
                &&& *final(holder) == *old(holder)
                &&& (e == ContractError::Overflow <==> all > u128::MAX)
                &&& (e == ContractError::NothingToClaim <==> all <= u128::MAX && payout == 0)
                &&& (e == ContractError::BalanceInvariantViolation <==> all <= u128::MAX && payout
                    > 0 && payout > old(state).prev_reward_balance)
                &&& (e == ContractError::Overflow || e == ContractError::NothingToClaim || e
                    == ContractError::BalanceInvariantViolation)
            },
        },
{
    let holder_prev = *holder;
    match accrue(state.global_index, holder) {
        Ok(u) => u,
        Err(e) => {
            return Err(e);
        },
    };
    let rewards = holder.pending_rewards.floor_uint();
    if rewards == 0 {
        *holder = holder_prev;
        return Err(ContractError::NothingToClaim);
    }
    let new_balance = match state.prev_reward_balance.checked_sub(rewards) {
        Some(b) => b,
        None => {
            *holder = holder_prev;
            return Err(ContractError::BalanceInvariantViolation);
        },
    };
    state.prev_reward_balance = new_balance;
    holder.pending_rewards = holder.pending_rewards.frac();
    let coin = deduct_tax(Coin { denom: reward_denom, amount: rewards });
    let mut instructions: Vec<Instruction> = Vec::new();
    instructions.push(
        Instruction::SendReward { recipient, denom: coin.denom, amount: coin.amount },
    );
    Ok((rewards, instructions))
}

/// Settles newly arrived yield into the global index.  `observed_balance`
/// is the reward-asset balance currently on hand; the difference to the
/// last observed balance is the newly claimed amount, spread over all
/// bonded units.  Only the hub contract may call this.
pub fn execute_update_global_index(
    state: &mut RewardState,
    sender: &String,
    hub_contract: &String,
    observed_balance: u128,
) -> (r: Result<u128, ContractError>)
    ensures
        match r {
            Ok(claimed) => {
                &&& sender@ == hub_contract@
                &&& old(state).total_balance > 0
                &&& observed_balance >= old(state).prev_reward_balance
                &&& claimed == observed_balance - old(state).prev_reward_balance
                &&& final(state).prev_reward_balance == observed_balance
                &&& final(state).total_balance == old(state).total_balance
                &&& final(state).global_index.val() == old(state).global_index.val() + (claimed
                    * FRAC) / (old(state).total_balance as int)
                &&& final(state).global_index.val() >= old(state).global_index.val()
            },
            Err(e) => {
                let claimed = observed_balance - old(state).prev_reward_balance;
                &&& *final(state) == *old(state)
                &&& (e == ContractError::Unauthorized <==> sender@ != hub_contract@)
                &&& (e == ContractError::NoBondedAssets <==> sender@ == hub_contract@ && old(
                    state,
                ).total_balance == 0)
                &&& (e == ContractError::BalanceInvariantViolation <==> sender@ == hub_contract@
                    && old(state).total_balance > 0 && observed_balance < old(
                    state,
                ).prev_reward_balance)
                &&& (e == ContractError::Overflow <==> sender@ == hub_contract@ && old(
                    state,
                ).total_balance > 0 && observed_balance >= old(state).prev_reward_balance && old(
                    state,
                ).global_index.val() + (claimed * FRAC) / (old(state).total_balance as int)
                    > u128::MAX)
                &&& (e == ContractError::Unauthorized || e == ContractError::NoBondedAssets || e
                    == ContractError::BalanceInvariantViolation || e == ContractError::Overflow)
            },
        },
{
    if !(*sender == *hub_contract) {
        return Err(ContractError::Unauthorized);
    }
    if state.total_balance == 0 {
        return Err(ContractError::NoBondedAssets);
    }
    let claimed = match observed_balance.checked_sub(state.prev_reward_balance) {
        Some(c) => c,
        None => {
            return Err(ContractError::BalanceInvariantViolation);
        },
    };
    let increment = match Dec::checked_from_ratio(claimed, state.total_balance) {
        Some(d) => d,
        None => {
            return Err(ContractError::Overflow);
        },
    };
    let new_index = match state.global_index.checked_add(increment) {
        Some(d) => d,
        None => {
            return Err(ContractError::Overflow);
        },
    };
    state.global_index = new_index;
    state.prev_reward_balance = observed_balance;
    Ok(claimed)
}

/// Settles the holder, then raises its balance and the distributor's total
/// by `amount`.  Only the registered share-token contract may call this.
pub fn execute_increase_balance(
    state: &mut RewardState,
    holder: &mut Holder,
    sender: &String,
    token_contract: &String,
    amount: u128,
) -> (r: Result<(), ContractError>)
    requires
        old(state).holder_settled(*old(holder)),
    ensures
        match r {
            Ok(u) => {
                &&& sender@ == token_contract@
                &&& final(holder).pending_rewards.val() == owed_atomics(*old(state), *old(holder))
                &&& final(holder).index == old(state).global_index
                &&& final(holder).balance == old(holder).balance + amount
                &&& final(state).total_balance == old(state).total_balance + amount
                &&& final(state).global_index == old(state).global_index
                &&& final(state).prev_reward_balance == old(state).prev_reward_balance
            },
            Err(e) => {
                &&& *final(state) == *old(state)
                &&& *final(holder) == *old(holder)
                &&& (e == ContractError::Unauthorized <==> sender@ != token_contract@)
                &&& (e == ContractError::Overflow <==> sender@ == token_contract@ && (owed_atomics(
                    *old(state),
                    *old(holder),
                ) > u128::MAX || old(holder).balance + amount > u128::MAX || old(
                    state,
                ).total_balance + amount > u128::MAX))
                &&& (e == ContractError::Unauthorized || e == ContractError::Overflow)
            },
        },
{
    if !(*sender == *token_contract) {
        return Err(ContractError::Unauthorized);
    }
    let holder_prev = *holder;
    match accrue(state.global_index, holder) {
        Ok(u) => u,
        Err(e) => {
            return Err(e);
        },
    };
    let new_balance = match holder.balance.checked_add(amount) {
        Some(b) => b,
        None => {
            *holder = holder_prev;
            return Err(ContractError::Overflow);
        },
    };
    let new_total = match state.total_balance.checked_add(amount) {
        Some(t) => t,
        None => {
            *holder = holder_prev;
            return Err(ContractError::Overflow);
        },
    };
    holder.balance = new_balance;
    state.total_balance = new_total;
    Ok(())
}

/// Settles the holder, then lowers its balance and the distributor's total
/// by `amount`.  Only the registered share-token contract may call this.
pub fn execute_decrease_balance(
    state: &mut RewardState,
    holder: &mut Holder,
    sender: &String,
    token_contract: &String,
    amount: u128,
) -> (r: Result<(), ContractError>)
    requires
        old(state).holder_settled(*old(holder)),
    ensures
        match r {
            Ok(u) => {
                &&& sender@ == token_contract@
                &&& amount <= old(holder).balance
                &&& final(holder).pending_rewards.val() == owed_atomics(*old(state), *old(holder))
                &&& final(holder).index == old(state).global_index
                &&& final(holder).balance == old(holder).balance - amount
                &&& final(state).total_balance == old(state).total_balance - amount
                &&& final(state).global_index == old(state).global_index
                &&& final(state).prev_reward_balance == old(state).prev_reward_balance
            },
            Err(e) => {
                &&& *final(state) == *old(state)
                &&& *final(holder) == *old(holder)
                &&& (e == ContractError::Unauthorized <==> sender@ != token_contract@)
                &&& (e == ContractError::InsufficientBalance <==> sender@ == token_contract@
                    && amount > old(holder).balance)
                &&& (e == ContractError::Overflow <==> sender@ == token_contract@ && amount <= old(
                    holder,
                ).balance && owed_atomics(*old(state), *old(holder)) > u128::MAX)
                &&& (e == ContractError::BalanceInvariantViolation <==> sender@ == token_contract@
                    && amount <= old(holder).balance && owed_atomics(*old(state), *old(holder))
                    <= u128::MAX && amount > old(state).total_balance)
                &&& (e == ContractError::Unauthorized || e == ContractError::InsufficientBalance
                    || e == ContractError::Overflow || e == ContractError::BalanceInvariantViolation)
            },
        },
{
    if !(*sender == *token_contract) {
        return Err(ContractError::Unauthorized);
    }
    if holder.balance < amount {
        return Err(ContractError::InsufficientBalance);
    }
    let holder_prev = *holder;
    match accrue(state.global_index, holder) {
        Ok(u) => u,
        Err(e) => {
            return Err(e);
        },
    };
    let new_total = match state.total_balance.checked_sub(amount) {
        Some(t) => t,
        None => {
            *holder = holder_prev;
            return Err(ContractError::BalanceInvariantViolation);
        },
    };
    holder.balance = holder.balance - amount;
    state.total_balance = new_total;
    Ok(())
}

/// Everything the holder could claim right now, in whole units.
pub fn query_accrued_rewards(state: &RewardState, holder: &Holder) -> (r: Result<
    u128,
    ContractError,
>)
    requires
        state.holder_settled(*holder),
    ensures
        match r {
            Ok(v) => owed_atomics(*state, *holder) <= u128::MAX && v == owed_atomics(
                *state,
                *holder,
            ) / (FRAC as int),
            Err(e) => e == ContractError::Overflow && owed_atomics(*state, *holder) > u128::MAX,
        },
{
    let delta = match calculate_decimal_rewards(state.global_index, holder.index, holder.balance) {
        Ok(d) => d,
        Err(e) => {
            return Err(e);
        },
    };
    match delta.checked_add(holder.pending_rewards) {
        Some(all) => Ok(all.floor_uint()),
        None => Err(ContractError::Overflow),
    }
}

/// The response to a single-holder query.
#[derive(Clone, Debug)]
pub struct HolderResponse {
    pub address: String,
    pub balance: u128,
    pub index: Dec,
    pub pending_rewards: Dec,
}

/// The response to a holder-range query.
#[derive(Clone, Debug)]
pub struct HoldersResponse {
    pub holders: Vec<HolderResponse>,
}

/// The response to an accrued-rewards query.
#[derive(Clone, Copy, Debug, PartialEq, Eq, Structural)]
pub struct AccruedRewardsResponse {
    pub rewards: u128,
}

/// A holder record under the address it is stored at.
pub fn query_holder(address: String, holder: &Holder) -> (r: HolderResponse)
    ensures
        r.address@ == address@,
        r.balance == holder.balance,
        r.index == holder.index,
        r.pending_rewards == holder.pending_rewards,
{
    HolderResponse {
        address,
        balance: holder.balance,
        index: holder.index,
        pending_rewards: holder.pending_rewards,
    }
}

/// The listed holder records, as read by the host in storage order.
pub fn query_holders(holders: Vec<HolderResponse>) -> (r: HoldersResponse)
    ensures
        r.holders@ == holders@,
{
    HoldersResponse { holders }
}

/// The distributor's configuration.
#[derive(Clone, Debug)]
pub struct Config {
    pub owner: String,
    pub hub_contract: String,
    pub custody_contract: Option<String>,
    pub reward_denom: String,
    /// Known tokens that may be swapped into the reward denomination.
    pub known_cw20_tokens: Vec<String>,
}

/// The registered swap venues.
#[derive(Clone, Debug)]
pub struct SwapConfig {
    pub astroport_addr: String,
    pub phoenix_addr: String,
    pub terraswap_addr: String,
}

/// Builds the configuration and state a fresh distributor starts with.
/// `sender` becomes the owner.
pub fn instantiate(msg: InstantiateMsg, sender: String) -> (r: (Config, RewardState, SwapConfig))
    ensures
        r.0.owner@ == sender@,
        r.0.hub_contract@ == msg.hub_contract@,
        r.0.custody_contract is None,
        r.0.reward_denom@ == msg.reward_denom@,
        r.0.known_cw20_tokens@ == msg.known_tokens@,
        r.1.global_index.val() == 0,
        r.1.total_balance == 0,
        r.1.prev_reward_balance == 0,
        r.2.astroport_addr@ == msg.astroport_addr@,
        r.2.phoenix_addr@ == msg.phoenix_addr@,
        r.2.terraswap_addr@ == msg.terraswap_addr@,
{
    let config = Config {
        owner: sender,
        hub_contract: msg.hub_contract,
        custody_contract: None,
        reward_denom: msg.reward_denom,
        known_cw20_tokens: msg.known_tokens,
    };
    let swap_config = SwapConfig {
        astroport_addr: msg.astroport_addr,
        phoenix_addr: msg.phoenix_addr,
        terraswap_addr: msg.terraswap_addr,
    };
    (config, RewardState::initial(), swap_config)
}

/// Applies the requested configuration changes.  Only the owner may call
/// this; absent fields keep their current value.
pub fn update_config(
    config: &mut Config,
    sender: &String,
    custody_contract: Option<String>,
    known_tokens: Option<Vec<String>>,
    reward_denom: Option<String>,
    owner: Option<String>,
) -> (r: Result<(), ContractError>)
    ensures
        match r {
            Ok(u) => {
                &&& sender@ == old(config).owner@
                &&& final(config).custody_contract == (if custody_contract is Some {
                    custody_contract
                } else {
                    old(config).custody_contract
                })
                &&& final(config).known_cw20_tokens == (if known_tokens is Some {
                    known_tokens->0
                } else {
                    old(config).known_cw20_tokens
                })
                &&& final(config).reward_denom == (if reward_denom is Some {
                    reward_denom->0
                } else {
                    old(config).reward_denom
                })
                &&& final(config).owner == (if owner is Some {
                    owner->0
                } else {
                    old(config).owner
                })
                &&& final(config).hub_contract == old(config).hub_contract
            },
            Err(e) => {
                &&& e == ContractError::Unauthorized
                &&& sender@ != old(config).owner@
                &&& *final(config) == *old(config)
            },
        },
{
    if !(*sender == config.owner) {
        return Err(ContractError::Unauthorized);
    }
    if let Some(custody) = custody_contract {
        config.custody_contract = Some(custody);
    }
    if let Some(tokens) = known_tokens {
        config.known_cw20_tokens = tokens;
    }
    if let Some(denom) = reward_denom {
        config.reward_denom = denom;
    }
    if let Some(new_owner) = owner {
        config.owner = new_owner;
    }
    Ok(())
}

/// The pending remainder after settling the accrued amounts in `deltas`
/// one claim at a time, starting from `p0` atomics: each round adds one
/// delta and pays out the whole units, keeping the fraction.  A round in
/// which no whole unit is available pays nothing and keeps everything,
/// which is the same reduction.
pub open spec fn pending_after_claims(p0: int, deltas: Seq<int>) -> int
    decreases deltas.len(),
{
    if deltas.len() == 0 {
        p0
    } else {
        (pending_after_claims(p0, deltas.drop_last()) + deltas.last()) % (FRAC as int)
    }
}

/// The total paid out over that sequence of claims, in whole units.
pub open spec fn paid_after_claims(p0: int, deltas: Seq<int>) -> int
    decreases deltas.len(),
{
    if deltas.len() == 0 {
        0
    } else {
        paid_after_claims(p0, deltas.drop_last()) + (pending_after_claims(p0, deltas.drop_last())
            + deltas.last()) / (FRAC as int)
    }
}

/// The sum of a sequence of accrued amounts.
pub open spec fn sum_deltas(deltas: Seq<int>) -> int
    decreases deltas.len(),
{
    if deltas.len() == 0 {
        0
    } else {
        sum_deltas(deltas.drop_last()) + deltas.last()
    }
}

/// No dust is ever lost by claiming: over any sequence of accrue-and-claim
/// rounds, the whole units paid out plus the final pending remainder equal
/// the initial remainder plus everything accrued, exactly — fractions are
/// deferred, never rounded away.
pub proof fn lemma_no_dust_loss(p0: int, deltas: Seq<int>)
    ensures
        paid_after_claims(p0, deltas) * (FRAC as int) + pending_after_claims(p0, deltas) == p0
            + sum_deltas(deltas),
    decreases deltas.len(),
{
    if deltas.len() > 0 {
        lemma_no_dust_loss(p0, deltas.drop_last());
        let paid_prev = paid_after_claims(p0, deltas.drop_last());
        let all = pending_after_claims(p0, deltas.drop_last()) + deltas.last();
        let q = all / (FRAC as int);
        vstd::arithmetic::div_mod::lemma_fundamental_div_mod(all, FRAC as int);
        assert((paid_prev + q) * (FRAC as int) == paid_prev * (FRAC as int) + q * (FRAC as int))
            by (nonlinear_arith);
        assert((FRAC as int) * q == q * (FRAC as int)) by (nonlinear_arith);
    }
}

/// One claim is one round of the model: the payout `owed / FRAC` and the
/// remainder `owed % FRAC` that `execute_claim_rewards` ensures are
/// exactly the reduction the claim-sequence model makes for one more
/// accrued amount.
pub proof fn lemma_claim_is_one_round(p0: int, deltas: Seq<int>, delta: int)
    ensures
        pending_after_claims(p0, deltas.push(delta)) == (pending_after_claims(p0, deltas) + delta)
            % (FRAC as int),
        paid_after_claims(p0, deltas.push(delta)) == paid_after_claims(p0, deltas) + (
        pending_after_claims(p0, deltas) + delta) / (FRAC as int),
{
    assert(deltas.push(delta).drop_last() =~= deltas);
    assert(deltas.push(delta).last() == delta);
}

/// Holders accrue in exact proportion to their balances: over the same
/// index interval, with no intervening balance change, the accrued deltas
/// of two holders satisfy `delta1 * b2 == delta2 * b1`.
pub proof fn lemma_proportional_accrual(global_index: int, user_index: int, b1: int, b2: int)
    ensures
        accrued_delta(global_index, user_index, b1) * b2 == accrued_delta(
            global_index,
            user_index,
            b2,
        ) * b1,
{
    assert(((global_index - user_index) * b1) * b2 == ((global_index - user_index) * b2) * b1)
        by (nonlinear_arith);
}

/// The public view of the configuration.
pub fn query_config(config: &Config) -> (r: ConfigResponse)
    ensures
        r.hub_contract@ == config.hub_contract@,
        r.reward_denom@ == config.reward_denom@,
{
    ConfigResponse {
        hub_contract: config.hub_contract.clone(),
        reward_denom: config.reward_denom.clone(),
    }
}

/// The denominations a swap round has to convert, in balance order: every
/// held denomination other than the reward denomination itself.
pub open spec fn swap_offers(balances: Seq<Coin>, reward_denom: Seq<char>) -> Seq<Seq<char>>
    decreases balances.len(),
{
    if balances.len() == 0 {
        Seq::empty()
    } else {
        let rest = swap_offers(balances.drop_last(), reward_denom);
        if balances.last().denom@ == reward_denom {
            rest
        } else {
            rest.push(balances.last().denom@)
        }
    }
}

/// Requests one swap into the reward denomination for every other held
/// balance.  Only the hub contract may call this.
pub fn execute_swap(
    sender: &String,
    hub_contract: &String,
    reward_denom: &String,
    balances: &Vec<Coin>,
) -> (r: Result<Vec<Instruction>, ContractError>)
    ensures
        match r {
            Ok(instrs) => {
                &&& sender@ == hub_contract@
                &&& instrs@.len() == swap_offers(balances@, reward_denom@).len()
                &&& forall|i: int|
                    0 <= i < instrs@.len() ==> (#[trigger] instrs@[i] matches Instruction::Swap {
                        offer_denom,
                        ask_denom,
                    } && offer_denom@ == swap_offers(balances@, reward_denom@)[i] && ask_denom@
                        == reward_denom@)
            },
            Err(e) => {
                &&& e == ContractError::Unauthorized
                &&& sender@ != hub_contract@
            },
        },
{
    if !(*sender == *hub_contract) {
        return Err(ContractError::Unauthorized);
    }
    let mut instructions: Vec<Instruction> = Vec::new();
    let mut i: usize = 0;
    while i < balances.len()
        invariant
            i <= balances.len(),
            instructions@.len() == swap_offers(balances@.take(i as int), reward_denom@).len(),
            forall|j: int|
                0 <= j < instructions@.len() ==> (#[trigger] instructions@[j] matches
                    Instruction::Swap { offer_denom, ask_denom } && offer_denom@ == swap_offers(
                    balances@.take(i as int),
                    reward_denom@,
                )[j] && ask_denom@ == reward_denom@),
        decreases balances.len() - i,
    {
        let coin = &balances[i];
        proof {
            assert(balances@.take(i + 1).drop_last() =~= balances@.take(i as int));
            assert(balances@.take(i + 1).last() == balances@[i as int]);
        }
        if !(coin.denom == *reward_denom) {
            instructions.push(
                Instruction::Swap {
                    offer_denom: coin.denom.clone(),
                    ask_denom: reward_denom.clone(),
                },
            );
        }
        i = i + 1;
    }
    proof {
        assert(balances@.take(balances@.len() as int) =~= balances@);
    }
    Ok(instructions)
}

} // verus!
