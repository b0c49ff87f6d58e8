use reward_manager::decimal::{i128_decimal, u128_decimal, u64_decimal};
use reward_manager::hunt_errors::{HuntError, HuntErrorCode};

#[test]
fn test_error_with_context_display() {
    let err = HuntError::HuntNotFound { hunt_id: 42 };
    let hunt_error: HuntErrorCode = err.into();
    assert_eq!(hunt_error, HuntErrorCode::HuntNotFound)
}

#[test]
fn test_hunt_not_found_message() {
    let err = HuntError::HuntNotFound { hunt_id: 42 };

    assert_eq!(err.message(), "Hunt not found: ID 42");
}

#[test]
fn test_clue_not_found_message() {
    let err = HuntError::ClueNotFound { hunt_id: 10 };

    assert_eq!(err.message(), "Clue not found for hunt 10");
}

#[test]
fn test_invalid_hunt_status_message() {
    let err = HuntError::InvalidHuntStatus;

    assert_eq!(err.message(), "Invalid hunt status");
}

#[test]
fn test_insufficient_reward_pool_message() {
    let err = HuntError::InsufficientRewardPool { required: 10000, available: 500 };

    assert_eq!(
        err.message(),
        "Insufficient reward pool: required 10000, available 500"
    );
}

#[test]
fn test_error_code_of_each_variant() {
    let clue: HuntErrorCode = HuntError::ClueNotFound { hunt_id: 7 }.into();
    assert_eq!(clue, HuntErrorCode::ClueNotFound);
    let status: HuntErrorCode = HuntError::InvalidHuntStatus.into();
    assert_eq!(status, HuntErrorCode::InvalidHuntStatus);
    let pool: HuntErrorCode = HuntError::InsufficientRewardPool { required: 1, available: 0 }.into();
    assert_eq!(pool, HuntErrorCode::InsufficientRewardPool);
}

#[test]
fn test_decimal_rendering_edges() {
    assert_eq!(u64_decimal(0), "0");
    assert_eq!(u64_decimal(10), "10");
    assert_eq!(u64_decimal(u64::MAX), "18446744073709551615");
    assert_eq!(u128_decimal(u128::MAX), "340282366920938463463374607431768211455");
    assert_eq!(i128_decimal(-1), "-1");
    assert_eq!(i128_decimal(-12045), "-12045");
    assert_eq!(i128_decimal(i128::MIN), "-170141183460469231731687303715884105728");
    assert_eq!(i128_decimal(i128::MAX), "170141183460469231731687303715884105727");
}
