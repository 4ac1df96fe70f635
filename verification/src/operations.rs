//! The vault state machine: lifecycle, principal-adjusting and
//! yield-realizing transitions.
//!
//! Every operation is all-or-nothing over the record it touches. The
//! token-service effect of a successful operation is part of its result:
//! after `stake` the host escrows `amount`, after `unstake` it releases
//! `amount` back to the user under the vault's own signing capability,
//! after `claim_rewards(..) == Ok(m)` with `m > 0` it mints `m` yield
//! tokens, and after `set_vault_authority` it hands the escrow account's
//! custody to the vault record. If the host's token-service call fails,
//! the host discards the updated record and keeps the previous one.

use vstd::prelude::*;
use crate::engine::{accrue_ok, accrue_rewards, accrued, pending_amount};
use crate::error::ErrorCode;
use crate::state::{keys_equal, GlobalState, Vault};

verus! {

/// Nominal per-second reward figure recorded in a fresh `GlobalState`.
pub const DEFAULT_REWARD_PER_SECOND: u64 = 792_744;

/// Creates a fresh vault for `user` at time `now`: nothing staked,
/// nothing owed, custody handover still pending.
pub fn initialize_vault(user: [u8; 32], bump: u8, now: i64) -> (v: Vault)
    ensures
        v == (Vault {
            user,
            staked_amount: 0,
            last_reward_time: now,
            reward_debt: 0,
            bump,
            authority_set: false,
        }),
{
    Vault { user, staked_amount: 0, last_reward_time: now, reward_debt: 0, bump, authority_set: false }
}

/// Creates the program-wide configuration singleton at time `now`.
pub fn initialize_program(reward_mint_authority_bump: u8, now: i64) -> (g: GlobalState)
    ensures
        g == (GlobalState {
            reward_per_second: DEFAULT_REWARD_PER_SECOND,
            total_staked: 0,
            last_update_time: now,
            reward_mint_authority_bump,
        }),
{
    GlobalState {
        reward_per_second: DEFAULT_REWARD_PER_SECOND,
        total_staked: 0,
        last_update_time: now,
        reward_mint_authority_bump,
    }
}

/// Whether staking `amount` into `v` at time `now` succeeds.
pub open spec fn stake_ok(v: Vault, now: i64, amount: u64) -> bool {
    &&& amount > 0
    &&& accrue_ok(v, now)
    &&& accrued(v, now).staked_amount + amount <= u64::MAX
}

/// The vault after a successful stake: accrued at `now`, then the
/// principal grown by `amount`.
pub open spec fn staked(v: Vault, now: i64, amount: u64) -> Vault {
    Vault { staked_amount: (accrued(v, now).staked_amount + amount) as u64, ..accrued(v, now) }
}

/// Escrows `amount` more principal into the vault.
///
/// Accrues first, then grows `staked_amount`. On success the host must
/// transfer `amount` from the user's balance into the vault's escrow,
/// authorized by the user.
pub fn stake(vault: &mut Vault, now: i64, amount: u64) -> (r: Result<(), ErrorCode>)
    ensures
        r == Ok::<(), ErrorCode>(()) <==> stake_ok(*old(vault), now, amount),
        stake_ok(*old(vault), now, amount) ==> *final(vault) == staked(*old(vault), now, amount),
        !stake_ok(*old(vault), now, amount) ==> *final(vault) == *old(vault),
        amount == 0 ==> r == Err::<(), ErrorCode>(ErrorCode::InsufficientStake),
        amount > 0 && now < old(vault).last_reward_time ==> r == Err::<(), ErrorCode>(
            ErrorCode::TimeError,
        ),
        amount > 0 && now >= old(vault).last_reward_time && !stake_ok(*old(vault), now, amount)
            ==> r == Err::<(), ErrorCode>(ErrorCode::Overflow),
{
    if amount == 0 {
        return Err(ErrorCode::InsufficientStake);
    }
    let snapshot: Vault = *vault;
    match accrue_rewards(vault, now) {
        Ok(()) => {},
        Err(e) => {
            return Err(e);
        },
    }
    match vault.staked_amount.checked_add(amount) {
        Some(total) => {
            vault.staked_amount = total;
            vault.last_reward_time = now;
            Ok(())
        },
        None => {
            *vault = snapshot;
            Err(ErrorCode::Overflow)
        },
    }
}

/// Whether withdrawing `amount` from `v` at time `now` succeeds.
pub open spec fn unstake_ok(v: Vault, now: i64, amount: u64) -> bool {
    &&& 0 < amount <= v.staked_amount
    &&& accrue_ok(v, now)
}

/// The vault after a successful unstake: accrued at `now`, then the
/// principal shrunk by `amount`.
pub open spec fn unstaked(v: Vault, now: i64, amount: u64) -> Vault {
    Vault { staked_amount: (v.staked_amount - amount) as u64, ..accrued(v, now) }
}

/// Releases `amount` of escrowed principal back to the user.
///
/// Accrues first, then shrinks `staked_amount`; the accrual's own
/// timestamp refresh is the only one. On success the host must transfer
/// `amount` from the vault's escrow back to the user, authorized by the
/// vault's derived signing capability.
pub fn unstake(vault: &mut Vault, now: i64, amount: u64) -> (r: Result<(), ErrorCode>)
    ensures
        r == Ok::<(), ErrorCode>(()) <==> unstake_ok(*old(vault), now, amount),
        unstake_ok(*old(vault), now, amount) ==> *final(vault) == unstaked(
            *old(vault),
            now,
            amount,
        ),
        !unstake_ok(*old(vault), now, amount) ==> *final(vault) == *old(vault),
        amount == 0 || amount > old(vault).staked_amount ==> r == Err::<(), ErrorCode>(
            ErrorCode::InsufficientStake,
        ),
        0 < amount <= old(vault).staked_amount && now < old(vault).last_reward_time ==> r
            == Err::<(), ErrorCode>(ErrorCode::TimeError),
        0 < amount <= old(vault).staked_amount && now >= old(vault).last_reward_time && !accrue_ok(
            *old(vault),
            now,
        ) ==> r == Err::<(), ErrorCode>(ErrorCode::Overflow),
{
    if amount == 0 {
        return Err(ErrorCode::InsufficientStake);
    }
    if vault.staked_amount < amount {
        return Err(ErrorCode::InsufficientStake);
    }
    match accrue_rewards(vault, now) {
        Ok(()) => {},
        Err(e) => {
            return Err(e);
        },
    }
    vault.staked_amount = vault.staked_amount - amount;
    Ok(())
}

/// Realizes the accrued yield.
///
/// Accrues first; the brought-current reward debt is returned and zeroed.
/// On `Ok(m)` with `m > 0` the host must mint `m` yield tokens to the
/// user, authorized by the program-wide minting identity; `Ok(0)` asks
/// for no token-service call at all.
pub fn claim_rewards(vault: &mut Vault, now: i64) -> (r: Result<u64, ErrorCode>)
    ensures
        r is Ok <==> accrue_ok(*old(vault), now),
        accrue_ok(*old(vault), now) ==> {
            &&& r == Ok::<u64, ErrorCode>(accrued(*old(vault), now).reward_debt)
            &&& *final(vault) == (Vault { reward_debt: 0, ..accrued(*old(vault), now) })
        },
        !accrue_ok(*old(vault), now) ==> *final(vault) == *old(vault),
        now < old(vault).last_reward_time ==> r == Err::<u64, ErrorCode>(ErrorCode::TimeError),
        now >= old(vault).last_reward_time && !accrue_ok(*old(vault), now) ==> r == Err::<
            u64,
            ErrorCode,
        >(ErrorCode::Overflow),
{
    match accrue_rewards(vault, now) {
        Ok(()) => {},
        Err(e) => {
            return Err(e);
        },
    }
    let total_reward: u64 = vault.reward_debt;
    if total_reward == 0 {
        return Ok(0);
    }
    vault.reward_debt = 0;
    vault.last_reward_time = now;
    Ok(total_reward)
}

/// The yield a query at time `now` observes as still pending: zero
/// unless time has passed since the last accrual.
pub open spec fn query_pending(v: Vault, now: i64) -> int {
    if now > v.last_reward_time {
        pending_amount(v.staked_amount, now - v.last_reward_time)
    } else {
        0
    }
}

/// Read-only projection of the total yield owed: the recorded reward
/// debt plus what accrual at `now` would add. The vault is never
/// changed, whatever the outcome.
pub fn get_yield(vault: &Vault, now: i64) -> (r: Result<u64, ErrorCode>)
    ensures
        r is Ok <==> vault.reward_debt + query_pending(*vault, now) <= u64::MAX,
        vault.reward_debt + query_pending(*vault, now) <= u64::MAX ==> r == Ok::<u64, ErrorCode>(
            (vault.reward_debt + query_pending(*vault, now)) as u64,
        ),
        vault.reward_debt + query_pending(*vault, now) > u64::MAX ==> r == Err::<u64, ErrorCode>(
            ErrorCode::Overflow,
        ),
{
    let mut probe: Vault = *vault;
    if now <= vault.last_reward_time {
        return Ok(vault.reward_debt);
    }
    match accrue_rewards(&mut probe, now) {
        Ok(()) => Ok(probe.reward_debt),
        Err(_) => Err(ErrorCode::Overflow),
    }
}

/// Whether the one-time custody handover by `caller` is allowed on `v`.
pub open spec fn authority_transfer_allowed(v: Vault, caller: [u8; 32]) -> bool {
    caller == v.user && !v.authority_set
}

/// The vault after its one-time custody handover.
pub open spec fn with_authority(v: Vault) -> Vault {
    Vault { authority_set: true, ..v }
}

/// Performs the one-time handover of the escrow account's custody to the
/// vault record itself.
///
/// Only the vault's owner may do it, and only once; the accrual engine is
/// not involved. On success the host must reassign the escrow account's
/// authority to the vault record.
pub fn set_vault_authority(vault: &mut Vault, caller: &[u8; 32]) -> (r: Result<(), ErrorCode>)
    ensures
        r == Ok::<(), ErrorCode>(()) <==> authority_transfer_allowed(*old(vault), *caller),
        authority_transfer_allowed(*old(vault), *caller) ==> *final(vault) == with_authority(
            *old(vault),
        ),
        !authority_transfer_allowed(*old(vault), *caller) ==> *final(vault) == *old(vault),
        *caller != old(vault).user ==> r == Err::<(), ErrorCode>(ErrorCode::Unauthorized),
        *caller == old(vault).user && old(vault).authority_set ==> r == Err::<(), ErrorCode>(
            ErrorCode::AlreadySet,
        ),
{
    if !keys_equal(caller, &vault.user) {
        return Err(ErrorCode::Unauthorized);
    }
    if vault.authority_set {
        return Err(ErrorCode::AlreadySet);
    }
    vault.authority_set = true;
    Ok(())
}

/// The custody handover happens exactly once: after a successful
/// `set_vault_authority` the flag is set, and no caller — the owner
/// included — is allowed a second handover on the resulting vault.
pub proof fn lemma_authority_set_once(v: Vault, caller: [u8; 32])
    requires
        authority_transfer_allowed(v, caller),
    ensures
        with_authority(v).authority_set,
        forall|c: [u8; 32]| !authority_transfer_allowed(with_authority(v), c),
{
}

} // verus!
