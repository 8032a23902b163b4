use lsd_core::error::ContractError;

#[test]
fn every_error_kind_has_a_message() {
    let kinds = [
        ContractError::InvalidDeposit,
        ContractError::ConfigurationError,
        ContractError::NoDelegationTargets,
        ContractError::NoBondedAssets,
        ContractError::BalanceInvariantViolation,
        ContractError::NothingToClaim,
        ContractError::InsufficientBalance,
        ContractError::Unauthorized,
        ContractError::Overflow,
    ];
    for kind in kinds {
        assert!(!kind.message().is_empty());
    }
    assert_eq!(ContractError::Unauthorized.message(), "unauthorized");
    assert_eq!(
        ContractError::NoBondedAssets.message(),
        "no asset is bonded"
    );
}
