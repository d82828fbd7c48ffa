//! The persistent pool record and its well-formedness invariant.

use vstd::prelude::*;
use crate::identity::{Identity, is_null_identity};

verus! {

/// The one persistent record of a deployed pool.
///
/// Treasury balance and receipt-token supply are held by the external
/// collaborators (the native-value ledger and the token subsystem) and are
/// handed to each operation as live balances; they are not duplicated here.
#[derive(Clone, Copy, Debug)]
pub struct StakingPool {
    /// Derivation proof for the mint authority, recorded at initialization.
    pub mint_bump: u8,
    /// The derived custody address that holds the staked native value.
    pub treasury: Identity,
    /// The identity allowed to withdraw from the treasury and reassign itself.
    pub admin: Identity,
    /// The identity allowed to reassign itself; governs logic, not funds.
    pub upgrade_authority: Identity,
    /// The most native value the admin may take in a single withdrawal.
    pub withdrawal_limit: u64,
    /// Timestamp of the last successful withdrawal; zero means never.
    pub last_withdrawal: i64,
    /// The minimum time between two successful withdrawals, in seconds.
    pub time_lock: i64,
}

/// What every reachable pool record satisfies: the two authorities are real
/// identities, the cooldown is a non-negative duration, and the
/// last-withdrawal timestamp is a non-negative instant.
pub open spec fn wf_pool(p: StakingPool) -> bool {
    &&& !is_null_identity(p.admin)
    &&& !is_null_identity(p.upgrade_authority)
    &&& p.last_withdrawal >= 0
    &&& p.time_lock >= 0
}

} // verus!
