//! The error taxonomy of the staking engine.
//!
//! Every failure is reported with a specific kind, never a generic one, and an
//! operation that fails leaves every balance and every pool field unchanged.

use vstd::prelude::*;

verus! {

/// Why a staking-engine operation was refused.
#[derive(Clone, Copy, Debug, PartialEq, Eq, Structural)]
pub enum ErrorCode {
    /// The caller is not the authority the operation demands.
    Unauthorized,
    /// The treasury does not hold enough native value for the payout.
    InsufficientTreasuryBalance,
    /// The caller's receipt-token balance is smaller than the amount to burn.
    InsufficientMsolBalance,
    /// The requested withdrawal exceeds the per-call withdrawal limit.
    WithdrawalLimitExceeded,
    /// The cooldown since the last successful withdrawal has not elapsed.
    WithdrawalTooSoon,
    /// The new admin may not be the null identity.
    InvalidAdminAddress,
    /// The new upgrade authority may not be the null identity.
    InvalidUpgradeAuthority,
    /// The caller does not hold enough native value to stake.
    InsufficientFunds,
    /// Minting the receipt-token would overflow its supply.
    MintFailed,
    /// A zero amount is rejected before anything else is checked.
    InvalidAmount,
}

} // verus!
