//! The bond-and-mint engine.
//!
//! A deposit of the underlying asset mints share tokens at the current
//! exchange rate.  While the share token trades below its peg threshold, a
//! capped peg-recovery fee is withheld from the minted amount: at most a
//! bounded share of the deposit, and no more than what is strictly needed
//! to restore proportional backing.  After every bond the exchange rate is
//! recomputed from the invariant `rate == total bonded / effective share
//! supply`.

use vstd::prelude::*;
use crate::decimal::{Dec, FRAC};
use crate::error::ContractError;
use crate::instr::{Coin, Instruction};

verus! {

/// Protocol parameters; immutable except by privileged update.
#[derive(Clone, Debug)]
pub struct Parameters {
    pub epoch_period: u64,
    pub underlying_coin_denom: String,
    pub unbonding_period: u64,
    /// Peg-recovery fee rate, between zero and one.
    pub peg_recovery_fee: Dec,
    /// Bonds pay the peg-recovery fee while the rate is below this.
    pub er_threshold: Dec,
    pub reward_denom: String,
}

/// The hub's registrations; only the creator may change them.
#[derive(Clone, Debug)]
pub struct Config {
    pub creator: String,
    pub reward_contract: Option<String>,
    pub token_contract: Option<String>,
    pub validators_registry_contract: Option<String>,
}

/// The exchange-rate ledger: the total bonded amount and the rate derived
/// from it.
#[derive(Clone, Copy, Debug, PartialEq, Eq, Structural)]
pub struct State {
    pub exchange_rate: Dec,
    pub total_bond_amount: u128,
}

/// The pending unbonding batch, as far as bonding needs it: shares already
/// promised with their fee, which belong in the exchange-rate denominator.
#[derive(Clone, Copy, Debug, PartialEq, Eq, Structural)]
pub struct CurrentBatch {
    pub requested_with_fee: u128,
}

/// The exchange rate implied by a bonded amount and an effective share
/// supply, in atomics: one when either side is zero (bootstrap), else the
/// ratio rounded down.
pub open spec fn exchange_rate_atomics(total_bond: int, effective_supply: int) -> int {
    if total_bond == 0 || effective_supply == 0 {
        FRAC as int
    } else {
        (total_bond * FRAC) / effective_supply
    }
}

impl State {
    /// Recomputes the exchange rate from the current bonded amount and the
    /// effective share supply `total_issued + requested_with_fee`.
    pub fn update_exchange_rate(&mut self, total_issued: u128, requested_with_fee: u128) -> (r:
        Result<(), ContractError>)
        ensures
            match r {
                Ok(u) => {
                    &&& total_issued + requested_with_fee <= u128::MAX
                    &&& exchange_rate_atomics(
                        old(self).total_bond_amount as int,
                        total_issued + requested_with_fee,
                    ) <= u128::MAX
                    &&& final(self).exchange_rate.val() == exchange_rate_atomics(
                        old(self).total_bond_amount as int,
                        total_issued + requested_with_fee,
                    )
                    &&& final(self).total_bond_amount == old(self).total_bond_amount
                },
                Err(e) => {
                    &&& e == ContractError::Overflow
                    &&& *final(self) == *old(self)
                    &&& (total_issued + requested_with_fee > u128::MAX || exchange_rate_atomics(
                        old(self).total_bond_amount as int,
                        total_issued + requested_with_fee,
                    ) > u128::MAX)
                },
            },
    {
        let actual_supply = match total_issued.checked_add(requested_with_fee) {
            Some(s) => s,
            None => {
                return Err(ContractError::Overflow);
            },
        };
        if self.total_bond_amount == 0 || actual_supply == 0 {
            self.exchange_rate = Dec::one();
            Ok(())
        } else {
            match Dec::checked_from_ratio(self.total_bond_amount, actual_supply) {
                Some(rate) => {
                    self.exchange_rate = rate;
                    Ok(())
                },
                None => Err(ContractError::Overflow),
            }
        }
    }
}

/// The whole shares a deposit buys before any fee: `payment / rate`,
/// rounded down.
pub open spec fn raw_mint_units(payment: int, rate: int) -> int {
    (payment * FRAC) / rate
}

/// The largest peg-recovery fee a bond may be charged: a fixed share of
/// the raw mint, rounded down.
pub open spec fn max_peg_fee(raw_mint: int, peg_recovery_fee: int) -> int {
    (raw_mint * peg_recovery_fee) / (FRAC as int)
}

/// The whole bond computation up to the minted amount: the raw mint at the
/// current rate and, below the peg threshold, the fee, which is the
/// smaller of the capped fee and what full backing still requires.
/// Returns `(minted, fee)`, or the error the computation must fail with.
pub open spec fn bond_quote(
    rate: int,
    threshold: int,
    peg_recovery_fee: int,
    total_supply: int,
    requested_with_fee: int,
    total_bond: int,
    payment: int,
) -> Result<(int, int), ContractError> {
    let raw = raw_mint_units(payment, rate);
    if raw > u128::MAX {
        Err(ContractError::Overflow)
    } else if rate >= threshold {
        Ok((raw, 0))
    } else {
        let target = total_supply + raw + requested_with_fee;
        let backing = total_bond + payment;
        if target > u128::MAX || backing > u128::MAX {
            Err(ContractError::Overflow)
        } else if target < backing {
            Err(ContractError::BalanceInvariantViolation)
        } else {
            let required = target - backing;
            let capped = max_peg_fee(raw, peg_recovery_fee);
            let fee = if capped <= required {
                capped
            } else {
                required
            };
            Ok((raw - fee, fee))
        }
    }
}

/// A deposit is valid when it is exactly one coin of the bonding
/// denomination with a positive amount.
pub open spec fn valid_payment(funds: Seq<Coin>, denom: Seq<char>) -> bool {
    funds.len() == 1 && funds[0].denom@ == denom && funds[0].amount > 0
}

/// Checks the attached funds and returns the deposited amount.
pub fn validate_funds(funds: &Vec<Coin>, denom: &String) -> (r: Result<u128, ContractError>)
    ensures
        match r {
            Ok(p) => valid_payment(funds@, denom@) && p == funds@[0].amount,
            Err(e) => e == ContractError::InvalidDeposit && !valid_payment(funds@, denom@),
        },
{
    if funds.len() != 1 {
        return Err(ContractError::InvalidDeposit);
    }
    let coin = &funds[0];
    if !(coin.denom == *denom) || coin.amount == 0 {
        return Err(ContractError::InvalidDeposit);
    }
    Ok(coin.amount)
}

/// The delegations that actually get a delegate instruction: those with a
/// non-zero allocated amount, in order.
pub open spec fn nonzero_delegations(dels: Seq<(String, u128)>) -> Seq<(String, u128)>
    decreases dels.len(),
{
    if dels.len() == 0 {
        Seq::empty()
    } else {
        let rest = nonzero_delegations(dels.drop_last());
        if dels.last().1 == 0 {
            rest
        } else {
            rest.push(dels.last())
        }
    }
}

/// The fee cap never exceeds the raw mint while the fee rate is at most
/// one, so the minted amount never goes negative.
proof fn lemma_max_peg_fee_le_raw(raw: int, peg: int)
    requires
        0 <= raw,
        0 <= peg <= FRAC,
    ensures
        0 <= max_peg_fee(raw, peg) <= raw,
{
    vstd::arithmetic::mul::lemma_mul_inequality(peg, FRAC as int, raw);
    vstd::arithmetic::div_mod::lemma_div_is_ordered(raw * peg, raw * (FRAC as int), FRAC as int);
    vstd::arithmetic::div_mod::lemma_div_multiples_vanish(raw, FRAC as int);
    vstd::arithmetic::div_mod::lemma_div_pos_is_pos(raw * peg, FRAC as int);
    vstd::arithmetic::mul::lemma_mul_nonnegative(raw, peg);
}

/// Bonds a validated deposit: charges the peg-recovery fee if the rate is
/// below the threshold, updates the bonded total and the exchange rate,
/// and returns the minted share amount together with the delegation
/// instructions (one per non-zero allocation) and the mint instruction.
/// Nothing is changed unless every validation and every arithmetic step
/// succeeds.
pub fn execute_bond(
    state: &mut State,
    params: &Parameters,
    config: &Config,
    current_batch: &CurrentBatch,
    funds: &Vec<Coin>,
    sender: String,
    total_supply: u128,
    delegations: &Vec<(String, u128)>,
) -> (r: Result<(u128, Vec<Instruction>), ContractError>)
    requires
        old(state).exchange_rate.val() > 0,
        params.peg_recovery_fee.val() <= FRAC,
    ensures
        match r {
            Ok(out) => {
                let payment = funds@[0].amount as int;
                let quote = bond_quote(
                    old(state).exchange_rate.val(),
                    params.er_threshold.val(),
                    params.peg_recovery_fee.val(),
                    total_supply as int,
                    current_batch.requested_with_fee as int,
                    old(state).total_bond_amount as int,
                    payment,
                );
                let new_bond = old(state).total_bond_amount + payment;
                let dels = nonzero_delegations(delegations@);
                &&& valid_payment(funds@, params.underlying_coin_denom@)
                &&& config.validators_registry_contract is Some
                &&& config.token_contract is Some
                &&& delegations@.len() > 0
                &&& (quote matches Ok(q) && out.0 == q.0 && new_bond <= u128::MAX && total_supply
                    + q.0 + current_batch.requested_with_fee <= u128::MAX && exchange_rate_atomics(
                    new_bond,
                    total_supply + q.0 + current_batch.requested_with_fee,
                ) <= u128::MAX && final(state).total_bond_amount == new_bond
                    && final(state).exchange_rate.val() == exchange_rate_atomics(
                    new_bond,
                    total_supply + q.0 + current_batch.requested_with_fee,
                ))
                &&& out.1@.len() == dels.len() + 1
                &&& forall|i: int|
                    0 <= i < dels.len() ==> (#[trigger] out.1@[i] matches Instruction::Delegate {
                        validator,
                        denom,
                        amount,
                    } && validator@ == dels[i].0@ && denom@ == params.underlying_coin_denom@
                        && amount == dels[i].1)
                &&& (out.1@[dels.len() as int] matches Instruction::MintShares { recipient, amount }
                    && recipient@ == sender@ && amount == out.0)
            },
            Err(e) => {
                let payment = funds@[0].amount as int;
                let funds_ok = valid_payment(funds@, params.underlying_coin_denom@);
                let config_ok = config.validators_registry_contract is Some
                    && config.token_contract is Some;
                let dels_ok = delegations@.len() > 0;
                let quote = bond_quote(
                    old(state).exchange_rate.val(),
                    params.er_threshold.val(),
                    params.peg_recovery_fee.val(),
                    total_supply as int,
                    current_batch.requested_with_fee as int,
                    old(state).total_bond_amount as int,
                    payment,
                );
                &&& *final(state) == *old(state)
                &&& (e == ContractError::InvalidDeposit <==> !funds_ok)
                &&& (e == ContractError::ConfigurationError <==> funds_ok && !config_ok)
                &&& (e == ContractError::NoDelegationTargets <==> funds_ok && config_ok && !dels_ok)
                &&& (e == ContractError::BalanceInvariantViolation <==> funds_ok && config_ok
                    && dels_ok && (quote matches Err(qe)
                    && qe == ContractError::BalanceInvariantViolation))
                &&& (e == ContractError::Overflow <==> funds_ok && config_ok && dels_ok && ((quote
                    matches Err(qe) && qe == ContractError::Overflow) || (quote matches Ok(q) && (
                old(state).total_bond_amount + payment > u128::MAX || total_supply + q.0
                    + current_batch.requested_with_fee > u128::MAX || exchange_rate_atomics(
                    old(state).total_bond_amount + payment,
                    total_supply + q.0 + current_batch.requested_with_fee,
                ) > u128::MAX))))
                &&& (e == ContractError::InvalidDeposit || e == ContractError::ConfigurationError
                    || e == ContractError::NoDelegationTargets
                    || e == ContractError::BalanceInvariantViolation || e
                    == ContractError::Overflow)
            },
        },
{
    let payment = match validate_funds(funds, &params.underlying_coin_denom) {
        Ok(p) => p,
        Err(e) => {
            return Err(e);
        },
    };
    if config.validators_registry_contract.is_none() {
        return Err(ContractError::ConfigurationError);
    }
    if config.token_contract.is_none() {
        return Err(ContractError::ConfigurationError);
    }
    if delegations.len() == 0 {
        return Err(ContractError::NoDelegationTargets);
    }

    let raw_mint = match state.exchange_rate.div_uint_floor(payment) {
        Some(v) => v,
        None => {
            return Err(ContractError::Overflow);
        },
    };
    let mut mint_with_fee = raw_mint;
    if state.exchange_rate.lt(&params.er_threshold) {
        proof {
            lemma_max_peg_fee_le_raw(raw_mint as int, params.peg_recovery_fee.val());
        }
        let max_fee = match params.peg_recovery_fee.mul_uint_floor(raw_mint) {
            Some(v) => v,
            None => {
                return Err(ContractError::Overflow);
            },
        };
        let with_raw = match total_supply.checked_add(raw_mint) {
            Some(v) => v,
            None => {
                return Err(ContractError::Overflow);
            },
        };
        let target = match with_raw.checked_add(current_batch.requested_with_fee) {
            Some(v) => v,
            None => {
                return Err(ContractError::Overflow);
            },
        };
        let backing = match state.total_bond_amount.checked_add(payment) {
            Some(v) => v,
            None => {
                return Err(ContractError::Overflow);
            },
        };
        let required = match target.checked_sub(backing) {
            Some(v) => v,
            None => {
                return Err(ContractError::BalanceInvariantViolation);
            },
        };
        let fee = if max_fee <= required {
            max_fee
        } else {
            required
        };
        mint_with_fee = raw_mint - fee;
    }

    let total_supply_after = match total_supply.checked_add(mint_with_fee) {
        Some(v) => v,
        None => {
            return Err(ContractError::Overflow);
        },
    };
    let new_bond = match state.total_bond_amount.checked_add(payment) {
        Some(v) => v,
        None => {
            return Err(ContractError::Overflow);
        },
    };
    let state_prev = *state;
    state.total_bond_amount = new_bond;
    match state.update_exchange_rate(total_supply_after, current_batch.requested_with_fee) {
        Ok(u) => u,
        Err(e) => {
            *state = state_prev;
            return Err(e);
        },
    };

    let mut instructions: Vec<Instruction> = Vec::new();
    let mut i: usize = 0;
    while i < delegations.len()
        invariant
            i <= delegations.len(),
            instructions@.len() == nonzero_delegations(delegations@.take(i as int)).len(),
            forall|j: int|
                0 <= j < instructions@.len() ==> (#[trigger] instructions@[j] matches
                    Instruction::Delegate { validator, denom, amount } && validator@
                    == nonzero_delegations(delegations@.take(i as int))[j].0@ && denom@
                    == params.underlying_coin_denom@ && amount == nonzero_delegations(
                    delegations@.take(i as int),
                )[j].1),
        decreases delegations.len() - i,
    {
        proof {
            assert(delegations@.take(i + 1).drop_last() =~= delegations@.take(i as int));
            assert(delegations@.take(i + 1).last() == delegations@[i as int]);
        }
        let entry = &delegations[i];
        if entry.1 > 0 {
            instructions.push(
                Instruction::Delegate {
                    validator: entry.0.clone(),
                    denom: params.underlying_coin_denom.clone(),
                    amount: entry.1,
                },
            );
        }
        i = i + 1;
    }
    proof {
        assert(delegations@.take(delegations@.len() as int) =~= delegations@);
    }
    instructions.push(Instruction::MintShares { recipient: sender, amount: mint_with_fee });
    Ok((mint_with_fee, instructions))
}

/// Above the peg threshold no fee is charged: a bond mints the full raw
/// amount.  Together with `execute_bond`'s contract this gives the rate
/// law for fee-free sequences: after each such bond the exchange rate is
/// exactly the bonded total over the effective share supply.
pub proof fn lemma_bond_above_threshold_no_fee(
    rate: int,
    threshold: int,
    peg_recovery_fee: int,
    total_supply: int,
    requested_with_fee: int,
    total_bond: int,
    payment: int,
)
    requires
        rate >= threshold,
        raw_mint_units(payment, rate) <= u128::MAX,
    ensures
        bond_quote(
            rate,
            threshold,
            peg_recovery_fee,
            total_supply,
            requested_with_fee,
            total_bond,
            payment,
        ) == Ok::<(int, int), ContractError>((raw_mint_units(payment, rate), 0int)),
{
}

/// Below the peg threshold the fee is bounded: it never exceeds the
/// capped share `raw_mint * peg_recovery_fee` of the deposit, and the
/// minted amount `raw_mint - fee` is never negative.
pub proof fn lemma_peg_fee_bounded(
    rate: int,
    threshold: int,
    peg_recovery_fee: int,
    total_supply: int,
    requested_with_fee: int,
    total_bond: int,
    payment: int,
)
    requires
        0 < rate < threshold,
        0 <= peg_recovery_fee <= FRAC,
        0 <= payment,
    ensures
        bond_quote(
            rate,
            threshold,
            peg_recovery_fee,
            total_supply,
            requested_with_fee,
            total_bond,
            payment,
        ) matches Ok(q) ==> {
            let raw = raw_mint_units(payment, rate);
            &&& 0 <= q.1 <= max_peg_fee(raw, peg_recovery_fee)
            &&& q.0 == raw - q.1
            &&& 0 <= q.0
        },
{
    let raw = raw_mint_units(payment, rate);
    vstd::arithmetic::mul::lemma_mul_nonnegative(payment, FRAC as int);
    vstd::arithmetic::div_mod::lemma_div_pos_is_pos(payment * (FRAC as int), rate);
    lemma_max_peg_fee_le_raw(raw, peg_recovery_fee);
}

/// Applies the requested parameter changes.  Only the creator may call
/// this; absent fields keep their current value, and the denominations
/// never change here.
pub fn execute_update_params(
    params: &mut Parameters,
    sender: &String,
    creator: &String,
    epoch_period: Option<u64>,
    unbonding_period: Option<u64>,
    peg_recovery_fee: Option<Dec>,
    er_threshold: Option<Dec>,
) -> (r: Result<(), ContractError>)
    ensures
        match r {
            Ok(u) => {
                &&& sender@ == creator@
                &&& final(params).epoch_period == (if epoch_period is Some {
                    epoch_period->0
                } else {
                    old(params).epoch_period
                })
                &&& final(params).unbonding_period == (if unbonding_period is Some {
                    unbonding_period->0
                } else {
                    old(params).unbonding_period
                })
                &&& final(params).peg_recovery_fee == (if peg_recovery_fee is Some {
                    peg_recovery_fee->0
                } else {
                    old(params).peg_recovery_fee
                })
                &&& final(params).er_threshold == (if er_threshold is Some {
                    er_threshold->0
                } else {
                    old(params).er_threshold
                })
                &&& final(params).underlying_coin_denom == old(params).underlying_coin_denom
                &&& final(params).reward_denom == old(params).reward_denom
            },
            Err(e) => {
                &&& e == ContractError::Unauthorized
                &&& sender@ != creator@
                &&& *final(params) == *old(params)
            },
        },
{
    if !(*sender == *creator) {
        return Err(ContractError::Unauthorized);
    }
    if let Some(period) = epoch_period {
        params.epoch_period = period;
    }
    if let Some(period) = unbonding_period {
        params.unbonding_period = period;
    }
    if let Some(fee) = peg_recovery_fee {
        params.peg_recovery_fee = fee;
    }
    if let Some(threshold) = er_threshold {
        params.er_threshold = threshold;
    }
    Ok(())
}

/// Applies the requested registration changes.  Only the creator may call
/// this.  Registering a reward contract also asks the host to set it as
/// the withdraw address for staking rewards.
pub fn execute_update_config(
    config: &mut Config,
    sender: &String,
    owner: Option<String>,
    reward_contract: Option<String>,
    token_contract: Option<String>,
    validators_registry_contract: Option<String>,
) -> (r: Result<Vec<Instruction>, ContractError>)
    ensures
        match r {
            Ok(instrs) => {
                &&& sender@ == old(config).creator@
                &&& final(config).creator == (if owner is Some {
                    owner->0
                } else {
                    old(config).creator
                })
                &&& final(config).reward_contract == (if reward_contract is Some {
                    reward_contract
                } else {
                    old(config).reward_contract
                })
                &&& final(config).token_contract == (if token_contract is Some {
                    token_contract
                } else {
                    old(config).token_contract
                })
                &&& final(config).validators_registry_contract == (if validators_registry_contract
                    is Some {
                    validators_registry_contract
                } else {
                    old(config).validators_registry_contract
                })
                &&& (reward_contract matches Some(rc) ==> instrs@.len() == 1 && (instrs@[0] matches
                    Instruction::SetWithdrawAddress { address } && address@ == rc@))
                &&& (reward_contract is None ==> instrs@.len() == 0)
            },
            Err(e) => {
                &&& e == ContractError::Unauthorized
                &&& sender@ != old(config).creator@
                &&& *final(config) == *old(config)
            },
        },
{
    if !(*sender == config.creator) {
        return Err(ContractError::Unauthorized);
    }
    let mut instructions: Vec<Instruction> = Vec::new();
    if let Some(new_owner) = owner {
        config.creator = new_owner;
    }
    if let Some(reward) = reward_contract {
        config.reward_contract = Some(reward.clone());
        instructions.push(Instruction::SetWithdrawAddress { address: reward });
    }
    if let Some(token) = token_contract {
        config.token_contract = Some(token);
    }
    if let Some(registry) = validators_registry_contract {
        config.validators_registry_contract = Some(registry);
    }
    Ok(instructions)
}

} // verus!
