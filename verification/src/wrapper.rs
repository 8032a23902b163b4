//! The wrapper-token decompounding engine.
//!
//! A wrapper token is minted one-to-one against value in a yield-bearing
//! staking token.  As that token's exchange rate drifts upward, the
//! wrapper becomes over-collateralized; decompounding converts the
//! surplus into an explicit payout while keeping the backing of every
//! wrapper token at or above par.

use vstd::prelude::*;
use vstd::arithmetic::div_mod::{
    lemma_div_is_ordered, lemma_div_multiples_vanish, lemma_div_pos_is_pos,
    lemma_fundamental_div_mod,
};
use vstd::arithmetic::mul::{lemma_mul_inequality, lemma_mul_inequality_converse};
use crate::decimal::{Dec, FRAC};
use crate::error::ContractError;
use crate::instr::{Coin, Instruction};

verus! {

/// Snapshot of the wrapper's backing, refreshed on every rate query.
#[derive(Clone, Copy, Debug, PartialEq, Eq, Structural)]
pub struct WrapperState {
    /// Value of the held staking tokens in the ultimate backing asset.
    pub prev_backing_luna: Dec,
    /// Outstanding wrapper supply.
    pub prev_wlsd_supply: u128,
    /// Held balance of the wrapped staking token.
    pub prev_lsd_balance: u128,
    /// Exchange rate of the staking token at the last refresh.
    pub prev_lsd_exchange_rate: Dec,
}

impl WrapperState {
    /// The snapshot a fresh wrapper starts from.
    pub fn initial() -> (r: WrapperState)
        ensures
            r.prev_backing_luna.val() == 0,
            r.prev_wlsd_supply == 0,
            r.prev_lsd_balance == 0,
            r.prev_lsd_exchange_rate.val() == FRAC,
    {
        WrapperState {
            prev_backing_luna: Dec::zero(),
            prev_wlsd_supply: 0,
            prev_lsd_balance: 0,
            prev_lsd_exchange_rate: Dec::one(),
        }
    }
}

/// The state a liquid-staking hub reports: its exchange rate and the
/// totals behind it.
#[derive(Clone, Copy, Debug, PartialEq, Eq, Structural)]
pub struct LsdState {
    pub exchange_rate: Dec,
    pub total_usteak: u128,
    pub total_uluna: u128,
}

/// A canned liquid-staking state for test hosts to answer queries from.
#[derive(Clone, Copy, Debug, PartialEq, Eq, Structural)]
pub struct LsdStateQuerier {
    pub lsd_state: Option<LsdState>,
}

impl LsdStateQuerier {
    pub fn new(lsd_state: LsdState) -> (r: LsdStateQuerier)
        ensures
            r.lsd_state == Some(lsd_state),
    {
        LsdStateQuerier { lsd_state: Some(lsd_state) }
    }

    /// The state this querier answers with.
    pub fn query_lsd_state(&self) -> (r: Option<LsdState>)
        ensures
            r == self.lsd_state,
    {
        self.lsd_state
    }
}

/// The addresses of the wrapped staking token's contracts.
#[derive(Clone, Debug)]
pub struct LsdContracts {
    pub hub: String,
    pub token: String,
}

/// Everything needed to set up a wrapper token.
#[derive(Clone, Debug)]
pub struct TokenInitMsg {
    pub name: String,
    pub symbol: String,
    pub decimals: u8,
    pub initial_balances: Vec<InitialBalance>,
    /// Only this contract may call decompound.
    pub hub_contract: String,
    pub lsd_hub_contract: String,
    pub lsd_token_contract: String,
}

/// One initial token grant.
#[derive(Clone, Debug)]
pub struct InitialBalance {
    pub address: String,
    pub amount: u128,
}

/// Builds the registrations and the snapshot a fresh wrapper starts with:
/// the staking-token contracts, the initial state, and the controller that
/// may decompound.
pub fn instantiate(msg: TokenInitMsg) -> (r: (LsdContracts, WrapperState, String))
    ensures
        r.0.hub@ == msg.lsd_hub_contract@,
        r.0.token@ == msg.lsd_token_contract@,
        r.1.prev_backing_luna.val() == 0,
        r.1.prev_wlsd_supply == 0,
        r.1.prev_lsd_balance == 0,
        r.1.prev_lsd_exchange_rate.val() == FRAC,
        r.2@ == msg.hub_contract@,
{
    let contracts = LsdContracts { hub: msg.lsd_hub_contract, token: msg.lsd_token_contract };
    (contracts, WrapperState::initial(), msg.hub_contract)
}

/// The wrapper's exchange rate against the backing asset, in atomics: the
/// value of the held staking tokens over the wrapper supply, or one while
/// no wrapper tokens exist.
pub open spec fn wrapper_rate_atomics(lsd_balance: int, lsd_rate: int, supply: int) -> int {
    if supply == 0 {
        FRAC as int
    } else {
        (lsd_balance * lsd_rate) / supply
    }
}

/// Recomputes the wrapper's exchange rate from the queried balance, the
/// staking token's rate and the wrapper supply, refreshing the snapshot.
pub fn get_current_exchange_rate(
    state: &mut WrapperState,
    lsd_balance: u128,
    lsd_exchange_rate: Dec,
    wlsd_supply: u128,
) -> (r: Result<Dec, ContractError>)
    ensures
        match r {
            Ok(rate) => {
                &&& lsd_balance * lsd_exchange_rate.val() <= u128::MAX
                &&& rate.val() == wrapper_rate_atomics(
                    lsd_balance as int,
                    lsd_exchange_rate.val(),
                    wlsd_supply as int,
                )
                &&& final(state).prev_backing_luna.val() == lsd_balance * lsd_exchange_rate.val()
                &&& final(state).prev_wlsd_supply == wlsd_supply
                &&& final(state).prev_lsd_balance == lsd_balance
                &&& final(state).prev_lsd_exchange_rate == lsd_exchange_rate
            },
            Err(e) => {
                &&& e == ContractError::Overflow
                &&& *final(state) == *old(state)
                &&& lsd_balance * lsd_exchange_rate.val() > u128::MAX
            },
        },
{
    let backing = match lsd_exchange_rate.checked_mul_int(lsd_balance) {
        Some(b) => b,
        None => {
            proof {
                assert(lsd_balance * lsd_exchange_rate.val() == lsd_exchange_rate.val()
                    * lsd_balance) by (nonlinear_arith);
            }
            return Err(ContractError::Overflow);
        },
    };
    proof {
        assert(backing.val() == lsd_balance * lsd_exchange_rate.val());
    }
    let rate = if wlsd_supply == 0 {
        Dec::one()
    } else {
        backing.div_int(wlsd_supply)
    };
    proof {
        assert(rate.val() == wrapper_rate_atomics(
            lsd_balance as int,
            lsd_exchange_rate.val(),
            wlsd_supply as int,
        ));
    }
    state.prev_lsd_exchange_rate = lsd_exchange_rate;
    state.prev_wlsd_supply = wlsd_supply;
    state.prev_backing_luna = backing;
    state.prev_lsd_balance = lsd_balance;
    Ok(rate)
}

/// What minting `amount` wrapper tokens costs in staking tokens: the
/// equivalent at the current rate, plus one smallest unit so the wrapper
/// is never under-collateralized by rounding.
pub fn wrapper_mint_cost(amount: u128, lsd_exchange_rate: Dec) -> (r: Result<u128, ContractError>)
    requires
        lsd_exchange_rate.val() > 0,
    ensures
        match r {
            Ok(v) => v == (amount * FRAC) / lsd_exchange_rate.val() + 1,
            Err(e) => e == ContractError::Overflow && (amount * FRAC) / lsd_exchange_rate.val() + 1
                > u128::MAX,
        },
{
    let base = match lsd_exchange_rate.div_uint_floor(amount) {
        Some(v) => v,
        None => {
            return Err(ContractError::Overflow);
        },
    };
    match base.checked_add(1) {
        Some(v) => Ok(v),
        None => Err(ContractError::Overflow),
    }
}

/// What burning `amount` wrapper tokens refunds in staking tokens: the
/// equivalent at the current rate, rounded down.
pub fn wrapper_burn_refund(amount: u128, lsd_exchange_rate: Dec) -> (r: Result<
    u128,
    ContractError,
>)
    requires
        lsd_exchange_rate.val() > 0,
    ensures
        match r {
            Ok(v) => v == (amount * FRAC) / lsd_exchange_rate.val(),
            Err(e) => e == ContractError::Overflow && (amount * FRAC) / lsd_exchange_rate.val()
                > u128::MAX,
        },
{
    match lsd_exchange_rate.div_uint_floor(amount) {
        Some(v) => Ok(v),
        None => Err(ContractError::Overflow),
    }
}

/// How many wrapper tokens a deposit of `lsd_amount` staking tokens
/// mints: its value at the current rate, rounded down.
pub fn wrapper_mint_with_amount(lsd_amount: u128, lsd_exchange_rate: Dec) -> (r: Result<
    u128,
    ContractError,
>)
    ensures
        match r {
            Ok(v) => v == (lsd_amount * lsd_exchange_rate.val()) / (FRAC as int),
            Err(e) => e == ContractError::Overflow && (lsd_amount * lsd_exchange_rate.val()) / (
            FRAC as int) > u128::MAX,
        },
{
    match lsd_exchange_rate.mul_uint_floor(lsd_amount) {
        Some(v) => Ok(v),
        None => Err(ContractError::Overflow),
    }
}

/// The transfer owed to a burner before the burn itself: the refund of
/// the burned amount in staking tokens, sent back to the burner.
pub fn before_burn(amount: u128, lsd_exchange_rate: Dec, sender: String) -> (r: Result<
    Instruction,
    ContractError,
>)
    requires
        lsd_exchange_rate.val() > 0,
    ensures
        match r {
            Ok(ins) => (ins matches Instruction::TransferLsd { recipient, amount: refund }
                && recipient@ == sender@ && refund == (amount * FRAC) / lsd_exchange_rate.val()),
            Err(e) => e == ContractError::Overflow && (amount * FRAC) / lsd_exchange_rate.val()
                > u128::MAX,
        },
{
    let refund = match wrapper_burn_refund(amount, lsd_exchange_rate) {
        Ok(v) => v,
        Err(e) => {
            return Err(e);
        },
    };
    Ok(Instruction::TransferLsd { recipient: sender, amount: refund })
}

/// The amount a burn-all burns: the caller's whole balance, or nothing at
/// all when the balance is zero.
pub fn burn_all_amount(balance: u128) -> (r: Option<u128>)
    ensures
        match r {
            Some(v) => v == balance && balance > 0,
            None => balance == 0,
        },
{
    if balance == 0 {
        None
    } else {
        Some(balance)
    }
}

/// Checks that a mint deposit is exactly one coin of the staking-token
/// denomination with exactly the expected amount.
pub fn check_mint_funds(funds: &Vec<Coin>, lsd_denom: &String, expected: u128) -> (r: Result<
    (),
    ContractError,
>)
    ensures
        match r {
            Ok(u) => funds@.len() == 1 && funds@[0].denom@ == lsd_denom@ && funds@[0].amount
                == expected,
            Err(e) => e == ContractError::InvalidDeposit && !(funds@.len() == 1
                && funds@[0].denom@ == lsd_denom@ && funds@[0].amount == expected),
        },
{
    if funds.len() != 1 {
        return Err(ContractError::InvalidDeposit);
    }
    let coin = &funds[0];
    if !(coin.denom == *lsd_denom) || coin.amount != expected {
        return Err(ContractError::InvalidDeposit);
    }
    Ok(())
}

/// The rewards a decompound round pays, before the one-unit safety
/// margin: the held staking tokens beyond what par backing requires, in
/// whole staking-token units.
pub open spec fn decompound_raw(lsd_balance: int, lsd_rate: int, supply: int) -> int {
    (lsd_balance * (FRAC as int) - (supply * (FRAC as int) * (FRAC as int)) / lsd_rate) / (
    FRAC as int)
}

/// The staking tokens a decompound round actually pays out: the surplus,
/// less one smallest unit kept as a safety margin against rounding.
pub open spec fn decompound_lsd_payout(lsd_balance: int, lsd_rate: int, supply: int) -> int {
    let raw = decompound_raw(lsd_balance, lsd_rate, supply);
    if raw > 0 {
        raw - 1
    } else {
        0
    }
}

/// The whole decompound computation: the payout in backing-asset units and
/// in staking-token units, `None` when the wrapper is at or below par, or
/// the error the computation must fail with.
pub open spec fn decompound_outcome(lsd_balance: int, lsd_rate: int, supply: int) -> Result<
    Option<(int, int)>,
    ContractError,
> {
    let f = FRAC as int;
    if lsd_balance * lsd_rate > u128::MAX {
        Err(ContractError::Overflow)
    } else if wrapper_rate_atomics(lsd_balance, lsd_rate, supply) < f {
        Ok(None)
    } else if lsd_balance * f > u128::MAX || supply * f > u128::MAX {
        Err(ContractError::Overflow)
    } else if (supply * f * f) / lsd_rate > u128::MAX {
        Err(ContractError::Overflow)
    } else {
        let raw = decompound_raw(lsd_balance, lsd_rate, supply);
        let luna_base = (lsd_balance * lsd_rate) / f - supply;
        if raw > 0 {
            if luna_base < lsd_rate / f {
                Err(ContractError::Overflow)
            } else {
                Ok(Some((luna_base - lsd_rate / f, raw - 1)))
            }
        } else {
            Ok(Some((luna_base, 0int)))
        }
    }
}

/// A successful decompound pays out exactly `decompound_lsd_payout` in
/// staking tokens: the quantity the par-preservation law bounds.
pub proof fn lemma_outcome_pays_the_lsd_payout(b: int, e: int, s: int)
    ensures
        decompound_outcome(b, e, s) matches Ok(v) ==> match v {
            Some(p) => p.1 == decompound_lsd_payout(b, e, s),
            None => true,
        },
{
}

/// While the wrapper is at or above par, the backing value covers the
/// supply in whole units, and the staking balance covers the par
/// requirement in atomics.
proof fn lemma_above_par_bounds(b: int, e: int, s: int)
    requires
        0 < e,
        0 <= b,
        0 <= s,
        wrapper_rate_atomics(b, e, s) >= FRAC,
    ensures
        (b * e) / (FRAC as int) >= s,
        (s * (FRAC as int) * (FRAC as int)) / e <= b * (FRAC as int),
        b * e >= s * (FRAC as int),
{
    let f = FRAC as int;
    if s == 0 {
        assert(b * e >= 0 && b * f >= 0 && s * f * f == 0) by (nonlinear_arith)
            requires
                0 <= b && 0 < e && s == 0 && f == FRAC as int,
        ;
        lemma_div_pos_is_pos(b * e, f);
        vstd::arithmetic::div_mod::lemma_div_of0(e);
        lemma_div_pos_is_pos(b * f, e);
    } else {
        // rate >= 1 means b * e >= f * s.
        lemma_fundamental_div_mod(b * e, s);
        lemma_mul_inequality(f, (b * e) / s, s);
        assert(b * e >= s * f) by (nonlinear_arith)
            requires
                b * e == s * ((b * e) / s) + (b * e) % s && (b * e) % s >= 0 && f * s <= ((b * e)
                    / s) * s && f * s == s * f,
        ;
        // hence the backing covers the supply in whole units
        lemma_div_is_ordered(s * f, b * e, f);
        assert((s * f) / f == s) by {
            lemma_div_multiples_vanish(s, f);
            assert(s * f == f * s) by (nonlinear_arith);
        }
        // and the balance covers the par requirement in atomics
        lemma_mul_inequality(s * f, b * e, f);
        assert(s * f * f <= b * e * f);
        lemma_div_is_ordered(s * f * f, b * e * f, e);
        assert((b * e * f) / e == b * f) by {
            lemma_div_multiples_vanish(b * f, e);
            assert(b * e * f == e * (b * f)) by (nonlinear_arith);
        }
    }
}

/// Decompounding never pushes the wrapper below par: paying out the
/// computed staking-token reward leaves the recomputed exchange rate at or
/// above one.
pub proof fn lemma_decompound_preserves_par(b: int, e: int, s: int)
    requires
        0 < e,
        0 <= b,
        0 <= s,
        wrapper_rate_atomics(b, e, s) >= FRAC,
    ensures
        0 <= decompound_lsd_payout(b, e, s) <= b,
        wrapper_rate_atomics(b - decompound_lsd_payout(b, e, s), e, s) >= FRAC,
{
    let f = FRAC as int;
    let d = (s * f * f) / e;
    let raw = decompound_raw(b, e, s);
    lemma_above_par_bounds(b, e, s);
    // raw is the floor of a non-negative quantity and never exceeds b
    lemma_div_pos_is_pos(b * f - d, f);
    lemma_fundamental_div_mod(b * f - d, f);
    assert(raw * f <= b * f - d) by (nonlinear_arith)
        requires
            b * f - d == f * raw + (b * f - d) % f && (b * f - d) % f >= 0 && f == FRAC as int,
    ;
    lemma_div_pos_is_pos(s * f * f, e);
    assert(raw * f <= b * f);
    lemma_mul_inequality_converse(raw, b, f);
    if raw > 0 {
        let q = raw - 1;
        if s == 0 {
            assert(wrapper_rate_atomics(b - q, e, s) == f);
        } else {
            // s*f*f is within e of e*d, and d is at most (b - raw)*f
            lemma_fundamental_div_mod(s * f * f, e);
            assert(s * f * f <= e * d + e - 1);
            assert(d <= (b - raw) * f) by (nonlinear_arith)
                requires
                    raw * f <= b * f - d,
            ;
            lemma_mul_inequality(d, (b - raw) * f, e);
            assert(e * d <= e * ((b - raw) * f)) by (nonlinear_arith)
                requires
                    d * e <= ((b - raw) * f) * e,
            ;
            // so paying raw - 1 keeps strictly more than par backing
            assert(((b - q) * e) * f > (s * f) * f) by (nonlinear_arith)
                requires
                    s * f * f <= e * ((b - raw) * f) + e - 1 && q == raw - 1 && 0 < e && f
                        == FRAC as int,
            ;
            vstd::arithmetic::mul::lemma_mul_strict_inequality_converse(s * f, (b - q) * e, f);
            // and at least par after the floor division by s
            lemma_div_is_ordered(s * f, (b - q) * e, s);
            assert((s * f) / s == f) by {
                lemma_div_multiples_vanish(f, s);
                assert(s * f == f * s) by (nonlinear_arith);
            }
        }
    }
}

/// The decompoundable surplus: in backing-asset units and in
/// staking-token units.
#[derive(Clone, Copy, Debug, PartialEq, Eq, Structural)]
pub struct AccruedRewards {
    pub luna_rewards: u128,
    pub lsd_rewards: u128,
}

/// The snapshot records exactly these queried values.
pub open spec fn snapshot_of(state: WrapperState, b: int, lsd_rate: Dec, s: int) -> bool {
    &&& state.prev_backing_luna.val() == b * lsd_rate.val()
    &&& state.prev_wlsd_supply == s
    &&& state.prev_lsd_balance == b
    &&& state.prev_lsd_exchange_rate == lsd_rate
}

/// Computes the decompoundable surplus from the queried balance, rate and
/// supply, refreshing the snapshot.  Returns `None` when the wrapper is at
/// or below par: there is nothing to decompound then, and the caller may
/// no-op.  When a surplus exists, one smallest unit is withheld from both
/// figures as a safety margin against rounding.
pub fn compute_accrued_rewards(
    state: &mut WrapperState,
    lsd_balance: u128,
    lsd_exchange_rate: Dec,
    wlsd_supply: u128,
) -> (r: Result<Option<AccruedRewards>, ContractError>)
    requires
        lsd_exchange_rate.val() > 0,
    ensures
        match r {
            Ok(out) => {
                let outcome = decompound_outcome(
                    lsd_balance as int,
                    lsd_exchange_rate.val(),
                    wlsd_supply as int,
                );
                &&& snapshot_of(
                    *final(state),
                    lsd_balance as int,
                    lsd_exchange_rate,
                    wlsd_supply as int,
                )
                &&& (outcome matches Ok(v) && match v {
                    None => out is None,
                    Some(p) => (out matches Some(acc) && acc.luna_rewards == p.0
                        && acc.lsd_rewards == p.1),
                })
            },
            Err(e) => {
                &&& *final(state) == *old(state)
                &&& (decompound_outcome(
                    lsd_balance as int,
                    lsd_exchange_rate.val(),
                    wlsd_supply as int,
                ) matches Err(oe) && e == oe)
            },
        },
{
    let state_prev = *state;
    let current_rate = match get_current_exchange_rate(
        state,
        lsd_balance,
        lsd_exchange_rate,
        wlsd_supply,
    ) {
        Ok(rate) => rate,
        Err(e) => {
            return Err(e);
        },
    };
    let one = Dec::one();
    if current_rate.lt(&one) {
        return Ok(None);
    }
    proof {
        lemma_above_par_bounds(
            lsd_balance as int,
            lsd_exchange_rate.val(),
            wlsd_supply as int,
        );
    }
    let luna_base = state.prev_backing_luna.floor_uint() - wlsd_supply;
    let b_dec = match Dec::from_integer(lsd_balance) {
        Some(d) => d,
        None => {
            *state = state_prev;
            return Err(ContractError::Overflow);
        },
    };
    let s_dec = match Dec::from_integer(wlsd_supply) {
        Some(d) => d,
        None => {
            *state = state_prev;
            return Err(ContractError::Overflow);
        },
    };
    let s_over_e = match s_dec.checked_div(lsd_exchange_rate) {
        Some(d) => d,
        None => {
            *state = state_prev;
            return Err(ContractError::Overflow);
        },
    };
    let diff = match b_dec.checked_sub(s_over_e) {
        Some(d) => d,
        None => {
            proof {
                assert(false);
            }
            *state = state_prev;
            return Err(ContractError::Overflow);
        },
    };
    let raw = diff.floor_uint();
    if raw > 0 {
        let whole_rate = lsd_exchange_rate.floor_uint();
        let luna_rewards = match luna_base.checked_sub(whole_rate) {
            Some(v) => v,
            None => {
                *state = state_prev;
                return Err(ContractError::Overflow);
            },
        };
        Ok(Some(AccruedRewards { luna_rewards, lsd_rewards: raw - 1 }))
    } else {
        Ok(Some(AccruedRewards { luna_rewards: luna_base, lsd_rewards: 0 }))
    }
}

/// Decompounds the wrapper's surplus: recomputes it from the queried
/// values and asks the host to transfer the staking-token part to the
/// recipient (the caller, if none is given).  At or below par nothing is
/// paid and nothing fails.  Only the registered controller may call this.
pub fn execute_decompound(
    state: &mut WrapperState,
    sender: &String,
    hub_contract: &String,
    recipient: Option<String>,
    lsd_balance: u128,
    lsd_exchange_rate: Dec,
    wlsd_supply: u128,
) -> (r: Result<(AccruedRewards, Vec<Instruction>), ContractError>)
    requires
        lsd_exchange_rate.val() > 0,
    ensures
        match r {
            Ok(out) => {
                let outcome = decompound_outcome(
                    lsd_balance as int,
                    lsd_exchange_rate.val(),
                    wlsd_supply as int,
                );
                let recip = if recipient is Some {
                    recipient->0@
                } else {
                    sender@
                };
                &&& sender@ == hub_contract@
                &&& snapshot_of(
                    *final(state),
                    lsd_balance as int,
                    lsd_exchange_rate,
                    wlsd_supply as int,
                )
                &&& (outcome matches Ok(v) && match v {
                    None => out.0.luna_rewards == 0 && out.0.lsd_rewards == 0 && out.1@.len() == 0,
                    Some(p) => out.0.luna_rewards == p.0 && out.0.lsd_rewards == p.1 && (p.1 > 0
                        ==> out.1@.len() == 1 && (out.1@[0] matches Instruction::TransferLsd {
                        recipient: rec,
                        amount,
                    } && rec@ == recip && amount == p.1)) && (p.1 == 0 ==> out.1@.len() == 0),
                })
            },
            Err(e) => {
                &&& *final(state) == *old(state)
                &&& (e == ContractError::Unauthorized <==> sender@ != hub_contract@)
                &&& (sender@ == hub_contract@ ==> (decompound_outcome(
                    lsd_balance as int,
                    lsd_exchange_rate.val(),
                    wlsd_supply as int,
                ) matches Err(oe) && e == oe))
            },
        },
{
    if !(*sender == *hub_contract) {
        return Err(ContractError::Unauthorized);
    }
    let recip = match recipient {
        Some(r) => r,
        None => sender.clone(),
    };
    let rewards = match compute_accrued_rewards(
        state,
        lsd_balance,
        lsd_exchange_rate,
        wlsd_supply,
    ) {
        Ok(out) => out,
        Err(e) => {
            return Err(e);
        },
    };
    match rewards {
        None => Ok((AccruedRewards { luna_rewards: 0, lsd_rewards: 0 }, Vec::new())),
        Some(acc) => {
            let mut instructions: Vec<Instruction> = Vec::new();
            if acc.lsd_rewards != 0 {
                instructions.push(
                    Instruction::TransferLsd { recipient: recip, amount: acc.lsd_rewards },
                );
            }
            Ok((acc, instructions))
        },
    }
}

} // verus!
