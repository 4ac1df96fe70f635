//! The two persisted records: the per-user vault and the program-wide
//! configuration singleton.

use vstd::prelude::*;

verus! {

/// Per-user staking record.
///
/// Invariants kept by the operations of this crate:
/// - `last_reward_time` never decreases across successful operations;
/// - `reward_debt` is zeroed only by a successful claim;
/// - `authority_set` flips false to true at most once and is terminal;
/// - `user` and `bump` are immutable after creation.
#[derive(Clone, Copy, Debug, PartialEq, Eq)]
pub struct Vault {
    /// Identity of the controlling user; immutable after creation.
    pub user: [u8; 32],
    /// Principal currently escrowed.
    pub staked_amount: u64,
    /// Timestamp of the last accrual; monotonically non-decreasing.
    pub last_reward_time: i64,
    /// Yield accrued but not yet claimed.
    pub reward_debt: u64,
    /// Derivation seed recorded at creation; the host re-derives the
    /// vault's own signing capability from it.
    pub bump: u8,
    /// Whether the one-time escrow-custody handover has happened.
    pub authority_set: bool,
}

/// Program-wide configuration singleton, created once and read-only
/// afterwards.
///
/// `reward_per_second` is recorded here as bookkeeping; the accrual
/// formula itself uses the compile-time rate constants of `engine`.
#[derive(Clone, Copy, Debug, PartialEq, Eq)]
pub struct GlobalState {
    /// Nominal per-second reward figure recorded at initialization.
    pub reward_per_second: u64,
    /// Aggregate principal across all vaults (bookkeeping only).
    pub total_staked: u64,
    /// Timestamp recorded at initialization.
    pub last_update_time: i64,
    /// Derivation seed of the program-wide minting authority.
    pub reward_mint_authority_bump: u8,
}

/// Compares two 32-byte identities.
pub fn keys_equal(a: &[u8; 32], b: &[u8; 32]) -> (r: bool)
    ensures
        r == (a == b),
{
    broadcast use vstd::array::group_array_axioms;

    let mut i: usize = 0;
    while i < 32
        invariant
            0 <= i <= 32,
            forall|j: int| 0 <= j < i ==> a[j] == b[j],
        decreases 32 - i,
    {
        if a[i] != b[i] {
            return false;
        }
        i = i + 1;
    }
    proof {
        assert(*a =~= *b);
    }
    true
}

} // verus!
