//! The reward-accrual engine: turning elapsed time and staked principal
//! into additional owed yield, with every arithmetic step checked.

use vstd::prelude::*;
use crate::error::ErrorCode;
use crate::state::Vault;

verus! {

/// Numerator of the fixed linear yield rate.
pub const RATE_NUM: u64 = 10;
/// Denominator of the fixed linear yield rate: together with `RATE_NUM`,
/// a 10%-per-year rate.
pub const RATE_DEN: u64 = 100;
/// Seconds in a 365-day year.
pub const SECONDS_PER_YEAR: u64 = 365 * 24 * 60 * 60;

/// The yield owed for holding `staked` principal over `delta` seconds:
/// `floor(staked * RATE_NUM * delta / (RATE_DEN * SECONDS_PER_YEAR))`.
pub open spec fn pending_amount(staked: u64, delta: int) -> int {
    (staked * RATE_NUM * delta) / ((RATE_DEN * SECONDS_PER_YEAR) as int)
}

/// Whether accruing `v` at time `now` succeeds: the clock has not
/// regressed and the grown reward debt still fits in 64 bits.
pub open spec fn accrue_ok(v: Vault, now: i64) -> bool {
    &&& now >= v.last_reward_time
    &&& v.reward_debt + pending_amount(v.staked_amount, now - v.last_reward_time) <= u64::MAX
}

/// The vault after a successful accrual at time `now`: the pending yield
/// is added to the reward debt and the accrual timestamp becomes `now`.
pub open spec fn accrued(v: Vault, now: i64) -> Vault {
    Vault {
        reward_debt: (v.reward_debt + pending_amount(
            v.staked_amount,
            now - v.last_reward_time,
        )) as u64,
        last_reward_time: now,
        ..v
    }
}

/// When the product `staked * RATE_NUM * delta` exceeds `u128::MAX`, the
/// pending yield already exceeds `u64::MAX`, so the overflow of the wide
/// intermediate never hides a representable result.
proof fn lemma_wide_overflow_means_large_pending(staked: u64, delta: int)
    requires
        delta >= 0,
        staked * RATE_NUM * delta > u128::MAX,
    ensures
        pending_amount(staked, delta) > u64::MAX,
{
    let x = staked * RATE_NUM * delta;
    let d = (RATE_DEN * SECONDS_PER_YEAR) as int;
    assert(d == 3_153_600_000);
    assert((u64::MAX + 1) * 3_153_600_000 <= u128::MAX) by (nonlinear_arith);
    vstd::arithmetic::div_mod::lemma_div_is_ordered((u64::MAX + 1) * d, x, d);
    vstd::arithmetic::div_mod::lemma_div_by_multiple(u64::MAX + 1, d);
}

/// Brings the vault's bookkeeping current at time `now`.
///
/// On success the pending yield is added to `reward_debt` and
/// `last_reward_time` becomes `now`; a repeated call at the same instant
/// is a no-op. A regressed clock fails with `TimeError`, an
/// unrepresentable reward debt with `Overflow`; either failure leaves the
/// vault exactly as it was.
pub fn accrue_rewards(vault: &mut Vault, now: i64) -> (r: Result<(), ErrorCode>)
    ensures
        r == Ok::<(), ErrorCode>(()) <==> accrue_ok(*old(vault), now),
        accrue_ok(*old(vault), now) ==> *final(vault) == accrued(*old(vault), now),
        !accrue_ok(*old(vault), now) ==> *final(vault) == *old(vault),
        now < old(vault).last_reward_time ==> r == Err::<(), ErrorCode>(ErrorCode::TimeError),
        now >= old(vault).last_reward_time && !accrue_ok(*old(vault), now) ==> r == Err::<
            (),
            ErrorCode,
        >(ErrorCode::Overflow),
{
    if now < vault.last_reward_time {
        return Err(ErrorCode::TimeError);
    }
    if now == vault.last_reward_time {
        proof {
            assert(vault.staked_amount * RATE_NUM * 0 == 0) by (nonlinear_arith);
            assert(pending_amount(vault.staked_amount, 0) == 0);
            assert(accrued(*vault, now) == *vault);
        }
        return Ok(());
    }
    let ghost delta: int = now - vault.last_reward_time;
    let delta_wide: u128 = ((now as i128) - (vault.last_reward_time as i128)) as u128;

    let base: u128 = (vault.staked_amount as u128) * (RATE_NUM as u128);
    let scaled: u128 = match base.checked_mul(delta_wide) {
        Some(p) => p,
        None => {
            proof {
                lemma_wide_overflow_means_large_pending(vault.staked_amount, delta);
            }
            return Err(ErrorCode::Overflow);
        },
    };
    let quotient: u128 = scaled / ((RATE_DEN as u128) * (SECONDS_PER_YEAR as u128));
    if quotient > u64::MAX as u128 {
        return Err(ErrorCode::Overflow);
    }
    let pending: u64 = quotient as u64;
    match vault.reward_debt.checked_add(pending) {
        Some(debt) => {
            vault.reward_debt = debt;
            vault.last_reward_time = now;
            Ok(())
        },
        None => Err(ErrorCode::Overflow),
    }
}

/// Accruing twice at the same instant changes nothing the second time:
/// once the vault is current at `now`, a further accrual at `now` still
/// succeeds and returns the vault unchanged.
pub proof fn lemma_accrue_idempotent(v: Vault, now: i64)
    requires
        accrue_ok(v, now),
    ensures
        accrue_ok(accrued(v, now), now),
        accrued(accrued(v, now), now) == accrued(v, now),
{
    assert(accrued(v, now).staked_amount * RATE_NUM * 0 == 0) by (nonlinear_arith);
    assert(pending_amount(accrued(v, now).staked_amount, 0) == 0);
}

/// A vault with nothing staked accrues nothing, whatever the elapsed time.
pub proof fn lemma_zero_stake_no_yield(delta: int)
    ensures
        pending_amount(0, delta) == 0,
{
    assert(0 * RATE_NUM * delta == 0) by (nonlinear_arith);
    assert(0int / ((RATE_DEN * SECONDS_PER_YEAR) as int) == 0);
}

} // verus!
