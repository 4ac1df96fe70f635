//! Failure taxonomy shared by every vault operation.

use vstd::prelude::*;

verus! {

/// Why a vault operation was rejected. Every failure aborts the whole
/// operation: no field of the vault is altered.
#[derive(Clone, Copy, Debug, PartialEq, Eq)]
pub enum ErrorCode {
    /// A zero amount was offered, or a withdrawal exceeds the staked balance.
    InsufficientStake,
    /// The minting authorizer handed to the token service did not match;
    /// surfaced by the host's token collaborator and propagated unchanged.
    InvalidRewardAuthority,
    /// An arithmetic step left the representable range.
    Overflow,
    /// The observed time precedes the last recorded accrual time.
    TimeError,
    /// The caller is not the vault's owner.
    Unauthorized,
    /// The one-time authority transfer was already performed.
    AlreadySet,
}

} // verus!
