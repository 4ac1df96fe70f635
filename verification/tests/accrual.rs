use stakingapp::engine::accrue_rewards;
use stakingapp::error::ErrorCode;
use stakingapp::state::Vault;

fn vault(staked: u64, last: i64, debt: u64) -> Vault {
    Vault {
        user: [9u8; 32],
        staked_amount: staked,
        last_reward_time: last,
        reward_debt: debt,
        bump: 42,
        authority_set: false,
    }
}

#[test]
fn one_year_accrues_ten_percent() {
    let mut v = vault(1_000_000, 0, 0);
    let r = accrue_rewards(&mut v, 31_536_000);
    assert_eq!(r, Ok(()));
    assert_eq!(v.reward_debt, 100_000);
    assert_eq!(v.last_reward_time, 31_536_000);
    assert_eq!(v.staked_amount, 1_000_000);
}

#[test]
fn half_year_accrues_five_percent() {
    let mut v = vault(1_000_000, 0, 0);
    let r = accrue_rewards(&mut v, 15_768_000);
    assert_eq!(r, Ok(()));
    assert_eq!(v.reward_debt, 50_000);
    assert_eq!(v.last_reward_time, 15_768_000);
}

#[test]
fn accrual_rounds_down() {
    // 1 * 10 * year / (100 * year) = 0.1, floored to 0.
    let mut v = vault(1, 0, 0);
    assert_eq!(accrue_rewards(&mut v, 31_536_000), Ok(()));
    assert_eq!(v.reward_debt, 0);
    assert_eq!(v.last_reward_time, 31_536_000);

    // 10 * 10 * year / (100 * year) = 1 exactly.
    let mut w = vault(10, 0, 0);
    assert_eq!(accrue_rewards(&mut w, 31_536_000), Ok(()));
    assert_eq!(w.reward_debt, 1);
}

#[test]
fn accrual_adds_to_existing_debt() {
    let mut v = vault(1_000_000, 100, 77);
    assert_eq!(accrue_rewards(&mut v, 100 + 31_536_000), Ok(()));
    assert_eq!(v.reward_debt, 100_077);
}

#[test]
fn repeated_accrual_at_same_instant_is_noop() {
    let mut v = vault(1_000_000, 0, 0);
    assert_eq!(accrue_rewards(&mut v, 31_536_000), Ok(()));
    let after_first = v;
    assert_eq!(accrue_rewards(&mut v, 31_536_000), Ok(()));
    assert_eq!(v, after_first);
}

#[test]
fn accrual_at_creation_instant_is_noop() {
    let mut v = vault(5_000, 1_234, 9);
    let before = v;
    assert_eq!(accrue_rewards(&mut v, 1_234), Ok(()));
    assert_eq!(v, before);
}

#[test]
fn zero_stake_accrues_nothing() {
    let mut v = vault(0, 0, 3);
    assert_eq!(accrue_rewards(&mut v, i64::MAX), Ok(()));
    assert_eq!(v.reward_debt, 3);
    assert_eq!(v.last_reward_time, i64::MAX);
}

#[test]
fn clock_regression_fails_time_error() {
    let mut v = vault(1_000, 100, 7);
    let before = v;
    assert_eq!(accrue_rewards(&mut v, 99), Err(ErrorCode::TimeError));
    assert_eq!(v, before);
}

#[test]
fn oversized_pending_fails_overflow() {
    let mut v = vault(u64::MAX, 0, 0);
    let before = v;
    assert_eq!(accrue_rewards(&mut v, i64::MAX), Err(ErrorCode::Overflow));
    assert_eq!(v, before);
}

#[test]
fn debt_addition_overflow_fails() {
    // Pending is 10, but the debt is already at the limit.
    let mut v = vault(3_153_600_000, 0, u64::MAX);
    let before = v;
    assert_eq!(accrue_rewards(&mut v, 1), Err(ErrorCode::Overflow));
    assert_eq!(v, before);
}

#[test]
fn accrual_from_negative_timestamp() {
    // One year spanning the epoch: same yield as any other year.
    let mut v = vault(1_000_000, -15_768_000, 0);
    assert_eq!(accrue_rewards(&mut v, 15_768_000), Ok(()));
    assert_eq!(v.reward_debt, 100_000);
    assert_eq!(v.last_reward_time, 15_768_000);
}
