use lsd_core::bonding::{
    execute_bond, execute_update_config, execute_update_params, validate_funds, Config,
    CurrentBatch, Parameters, State,
};
use lsd_core::decimal::Dec;
use lsd_core::error::ContractError;
use lsd_core::instr::{Coin, Instruction};

fn params(threshold_num: u128, threshold_den: u128, fee_num: u128, fee_den: u128) -> Parameters {
    Parameters {
        epoch_period: 30,
        underlying_coin_denom: String::from("uluna"),
        unbonding_period: 210,
        peg_recovery_fee: Dec::checked_from_ratio(fee_num, fee_den).unwrap(),
        er_threshold: Dec::checked_from_ratio(threshold_num, threshold_den).unwrap(),
        reward_denom: String::from("uusd"),
    }
}

fn config() -> Config {
    Config {
        creator: String::from("owner"),
        reward_contract: Some(String::from("reward")),
        token_contract: Some(String::from("token")),
        validators_registry_contract: Some(String::from("registry")),
    }
}

fn luna(amount: u128) -> Vec<Coin> {
    vec![Coin { denom: String::from("uluna"), amount }]
}

#[test]
fn bond_below_peg_charges_required_fee() {
    // deposit 1_000_000 at rate 0.5 under a threshold of 1.0 with a 5% fee
    // cap: raw mint 2_000_000, required fee 50_000, cap 100_000 -> fee
    // 50_000, minted 1_950_000
    let mut state = State {
        exchange_rate: Dec::checked_from_ratio(1, 2).unwrap(),
        total_bond_amount: 1_950_000,
    };
    let batch = CurrentBatch { requested_with_fee: 0 };
    let delegations = vec![(String::from("val1"), 1_000_000u128)];
    let (minted, instrs) = execute_bond(
        &mut state,
        &params(1, 1, 5, 100),
        &config(),
        &batch,
        &luna(1_000_000),
        String::from("depositor"),
        1_000_000,
        &delegations,
    )
    .unwrap();
    assert_eq!(minted, 1_950_000);
    assert_eq!(state.total_bond_amount, 2_950_000);
    // effective supply after mint: 1_000_000 + 1_950_000 == bonded total,
    // so the rate recovers to exactly 1
    assert_eq!(state.exchange_rate, Dec::one());
    assert_eq!(instrs.len(), 2);
    assert!(matches!(
        &instrs[0],
        Instruction::Delegate { validator, denom, amount }
            if validator == "val1" && denom == "uluna" && *amount == 1_000_000
    ));
    assert!(matches!(
        &instrs[1],
        Instruction::MintShares { recipient, amount }
            if recipient == "depositor" && *amount == 1_950_000
    ));
}

#[test]
fn bond_below_peg_fee_is_capped() {
    // same deposit, but restoring the peg would need more than the cap:
    // fee stays at raw_mint * peg_recovery_fee
    let mut state = State {
        exchange_rate: Dec::checked_from_ratio(1, 2).unwrap(),
        total_bond_amount: 1_000_000,
    };
    let batch = CurrentBatch { requested_with_fee: 0 };
    let delegations = vec![(String::from("val1"), 1_000_000u128)];
    let (minted, _) = execute_bond(
        &mut state,
        &params(1, 1, 5, 100),
        &config(),
        &batch,
        &luna(1_000_000),
        String::from("depositor"),
        1_000_000,
        &delegations,
    )
    .unwrap();
    // required fee would be 1_000_000; cap is 100_000
    assert_eq!(minted, 1_900_000);
}

#[test]
fn bond_at_or_above_threshold_charges_no_fee() {
    let mut state = State { exchange_rate: Dec::one(), total_bond_amount: 1_000_000 };
    let batch = CurrentBatch { requested_with_fee: 0 };
    let delegations = vec![(String::from("val1"), 500_000u128), (String::from("val2"), 0u128)];
    let (minted, instrs) = execute_bond(
        &mut state,
        &params(1, 1, 5, 100),
        &config(),
        &batch,
        &luna(500_000),
        String::from("depositor"),
        1_000_000,
        &delegations,
    )
    .unwrap();
    assert_eq!(minted, 500_000);
    assert_eq!(state.total_bond_amount, 1_500_000);
    // rate stays exactly bonded / supply == 1
    assert_eq!(state.exchange_rate, Dec::one());
    // the zero-amount delegation is skipped
    assert_eq!(instrs.len(), 2);
    assert!(matches!(
        &instrs[0],
        Instruction::Delegate { validator, .. } if validator == "val1"
    ));
    assert!(matches!(&instrs[1], Instruction::MintShares { .. }));
}

#[test]
fn bond_rate_follows_bonded_over_supply_across_bonds() {
    // a sequence of fee-free bonds keeps rate == bonded / supply exactly
    let mut state = State { exchange_rate: Dec::one(), total_bond_amount: 3_000 };
    let batch = CurrentBatch { requested_with_fee: 500 };
    let delegations = vec![(String::from("val1"), 1u128)];
    let mut supply: u128 = 2_500; // 3_000 == supply + requested: rate 1
    for payment in [700u128, 1_300, 11] {
        let (minted, _) = execute_bond(
            &mut state,
            &params(1, 2, 5, 100),
            &config(),
            &batch,
            &luna(payment),
            String::from("depositor"),
            supply,
            &delegations,
        )
        .unwrap();
        supply += minted;
        assert_eq!(
            state.exchange_rate,
            Dec::checked_from_ratio(state.total_bond_amount, supply + 500).unwrap()
        );
    }
}

#[test]
fn bond_rejects_malformed_funds() {
    let mut state = State { exchange_rate: Dec::one(), total_bond_amount: 0 };
    let batch = CurrentBatch { requested_with_fee: 0 };
    let delegations = vec![(String::from("val1"), 1u128)];
    let p = params(1, 1, 5, 100);
    // two coins
    let two = vec![
        Coin { denom: String::from("uluna"), amount: 5 },
        Coin { denom: String::from("uusd"), amount: 5 },
    ];
    let err = execute_bond(
        &mut state, &p, &config(), &batch, &two, String::from("d"), 0, &delegations,
    )
    .unwrap_err();
    assert_eq!(err, ContractError::InvalidDeposit);
    // wrong denom
    let wrong = vec![Coin { denom: String::from("uusd"), amount: 5 }];
    let err = execute_bond(
        &mut state, &p, &config(), &batch, &wrong, String::from("d"), 0, &delegations,
    )
    .unwrap_err();
    assert_eq!(err, ContractError::InvalidDeposit);
    // zero amount
    let err = execute_bond(
        &mut state, &p, &config(), &batch, &luna(0), String::from("d"), 0, &delegations,
    )
    .unwrap_err();
    assert_eq!(err, ContractError::InvalidDeposit);
}

#[test]
fn bond_requires_registrations_and_targets() {
    let mut state = State { exchange_rate: Dec::one(), total_bond_amount: 0 };
    let batch = CurrentBatch { requested_with_fee: 0 };
    let delegations = vec![(String::from("val1"), 1u128)];
    let p = params(1, 1, 5, 100);
    let mut no_registry = config();
    no_registry.validators_registry_contract = None;
    let err = execute_bond(
        &mut state, &p, &no_registry, &batch, &luna(5), String::from("d"), 0, &delegations,
    )
    .unwrap_err();
    assert_eq!(err, ContractError::ConfigurationError);
    let mut no_token = config();
    no_token.token_contract = None;
    let err = execute_bond(
        &mut state, &p, &no_token, &batch, &luna(5), String::from("d"), 0, &delegations,
    )
    .unwrap_err();
    assert_eq!(err, ContractError::ConfigurationError);
    let none: Vec<(String, u128)> = vec![];
    let err = execute_bond(
        &mut state, &p, &config(), &batch, &luna(5), String::from("d"), 0, &none,
    )
    .unwrap_err();
    assert_eq!(err, ContractError::NoDelegationTargets);
}

#[test]
fn bond_reports_broken_backing_invariant() {
    // below the peg, the share target must not already be short of the
    // backing: that is an upstream invariant violation
    let mut state = State {
        exchange_rate: Dec::checked_from_ratio(1, 2).unwrap(),
        total_bond_amount: 10_000_000,
    };
    let batch = CurrentBatch { requested_with_fee: 0 };
    let delegations = vec![(String::from("val1"), 1u128)];
    let err = execute_bond(
        &mut state,
        &params(1, 1, 5, 100),
        &config(),
        &batch,
        &luna(1_000_000),
        String::from("d"),
        1_000_000,
        &delegations,
    )
    .unwrap_err();
    assert_eq!(err, ContractError::BalanceInvariantViolation);
    assert_eq!(state.total_bond_amount, 10_000_000);
}

#[test]
fn bond_overflow_is_explicit() {
    let mut state = State { exchange_rate: Dec::one(), total_bond_amount: u128::MAX };
    let batch = CurrentBatch { requested_with_fee: 0 };
    let delegations = vec![(String::from("val1"), 1u128)];
    let err = execute_bond(
        &mut state,
        &params(1, 2, 5, 100),
        &config(),
        &batch,
        &luna(2),
        String::from("d"),
        1,
        &delegations,
    )
    .unwrap_err();
    assert_eq!(err, ContractError::Overflow);
    assert_eq!(state.total_bond_amount, u128::MAX);
}

#[test]
fn validate_funds_accepts_single_matching_coin() {
    assert_eq!(validate_funds(&luna(7), &String::from("uluna")).unwrap(), 7);
}

#[test]
fn update_params_merges_options() {
    let mut p = params(1, 1, 5, 100);
    let err = execute_update_params(
        &mut p,
        &String::from("mallory"),
        &String::from("owner"),
        None,
        None,
        None,
        None,
    )
    .unwrap_err();
    assert_eq!(err, ContractError::Unauthorized);
    execute_update_params(
        &mut p,
        &String::from("owner"),
        &String::from("owner"),
        Some(60),
        None,
        Some(Dec::checked_from_ratio(1, 100).unwrap()),
        None,
    )
    .unwrap();
    assert_eq!(p.epoch_period, 60);
    assert_eq!(p.unbonding_period, 210);
    assert_eq!(p.peg_recovery_fee, Dec::checked_from_ratio(1, 100).unwrap());
    assert_eq!(p.er_threshold, Dec::one());
    assert_eq!(p.underlying_coin_denom, "uluna");
}

#[test]
fn update_config_registers_withdraw_address() {
    let mut c = config();
    let instrs = execute_update_config(
        &mut c,
        &String::from("owner"),
        Some(String::from("owner2")),
        Some(String::from("reward2")),
        None,
        Some(String::from("registry2")),
    )
    .unwrap();
    assert_eq!(c.creator, "owner2");
    assert_eq!(c.reward_contract, Some(String::from("reward2")));
    assert_eq!(c.token_contract, Some(String::from("token")));
    assert_eq!(c.validators_registry_contract, Some(String::from("registry2")));
    assert_eq!(instrs.len(), 1);
    assert!(matches!(
        &instrs[0],
        Instruction::SetWithdrawAddress { address } if address == "reward2"
    ));
    // without a reward contract no instruction is emitted
    let instrs =
        execute_update_config(&mut c, &String::from("owner2"), None, None, None, None).unwrap();
    assert!(instrs.is_empty());
}

#[test]
fn raw_mint_floors_at_current_rate() {
    // 1_000_000 at rate 1.5 mints 666_666 (floored), fee-free
    let mut state = State { exchange_rate: Dec::checked_from_ratio(3, 2).unwrap(), total_bond_amount: 3_000_000 };
    let batch = CurrentBatch { requested_with_fee: 0 };
    let delegations = vec![(String::from("val1"), 1u128)];
    let (minted, _) = execute_bond(
        &mut state,
        &params(1, 1, 5, 100),
        &config(),
        &batch,
        &luna(1_000_000),
        String::from("d"),
        2_000_000,
        &delegations,
    )
    .unwrap();
    assert_eq!(minted, 666_666);
    assert_eq!(state.total_bond_amount, 4_000_000);
    assert_eq!(
        state.exchange_rate,
        Dec::checked_from_ratio(4_000_000, 2_666_666).unwrap()
    );
}
