//! The staking engine: the four state-changing operations and the two
//! administrative operations, as pure transitions over plain balances.
//!
//! The transactional substrate authenticates the caller, serializes calls and
//! makes each one all-or-nothing; the engine is handed the caller's identity,
//! the live balances the call touches and, for withdrawals, the current time,
//! and it either applies the whole effect or returns a specific error and
//! changes nothing.
//!
//! Each operation's effect is stated twice: a `..._check` spec function gives
//! the first error an input runs into (or none), a `..._apply` spec function
//! gives the successor balances, and the executable operation is proved to
//! follow exactly that pair.

use vstd::prelude::*;
use crate::errors::ErrorCode;
use crate::events::{
    ChangeAdminEvent, InitializeEvent, SetUpgradeAuthorityEvent, StakeEvent, UnstakeEvent,
    WithdrawEvent,
};
use crate::identity::{Identity, is_null_identity, same_identity};
use crate::pool::{StakingPool, wf_pool};

verus! {

/// The live balances a stake or unstake call reads and writes: the calling
/// user's native balance and receipt-token balance, the treasury's native
/// balance, and the receipt-token supply.
#[derive(Clone, Copy, Debug, PartialEq, Eq, Structural)]
pub struct Balances {
    /// Native value held by the calling user.
    pub user_lamports: u64,
    /// Receipt-token balance of the calling user.
    pub user_msol: u64,
    /// Native value held at the treasury address.
    pub treasury_lamports: u64,
    /// Total receipt-token supply.
    pub msol_supply: u64,
}

/// What the external collaborators guarantee of any balances they hand over:
/// one holder's receipt-token balance never exceeds the supply, and the native
/// value split between the user and the treasury is part of one ledger whose
/// total fits the balance type.
pub open spec fn wf_balances(b: Balances) -> bool {
    &&& b.user_msol <= b.msol_supply
    &&& b.user_lamports + b.treasury_lamports <= u64::MAX
}

/// The first error a stake of `amount` runs into, if any: a zero amount is
/// rejected, then the caller must hold the native value being staked, then the
/// mint must be able to issue `amount` more receipt-tokens.
pub open spec fn stake_check(b: Balances, amount: u64) -> Option<ErrorCode> {
    if amount == 0 {
        Some(ErrorCode::InvalidAmount)
    } else if b.user_lamports < amount {
        Some(ErrorCode::InsufficientFunds)
    } else if b.msol_supply + amount > u64::MAX {
        Some(ErrorCode::MintFailed)
    } else {
        None
    }
}

/// The balances after a successful stake: `amount` of native value moves from
/// the user to the treasury, and `amount` of receipt-token is minted to the
/// user.
pub open spec fn stake_apply(b: Balances, amount: u64) -> Balances {
    Balances {
        user_lamports: (b.user_lamports - amount) as u64,
        user_msol: (b.user_msol + amount) as u64,
        treasury_lamports: (b.treasury_lamports + amount) as u64,
        msol_supply: (b.msol_supply + amount) as u64,
    }
}

/// The first error an unstake of `amount` runs into, if any: a zero amount is
/// rejected, then the treasury must be able to pay the redemption out, then
/// the caller must own the receipt-tokens being burned.  Both balance checks
/// precede any mutation, so a burn with no matching payout can never happen.
pub open spec fn unstake_check(b: Balances, amount: u64) -> Option<ErrorCode> {
    if amount == 0 {
        Some(ErrorCode::InvalidAmount)
    } else if b.treasury_lamports < amount {
        Some(ErrorCode::InsufficientTreasuryBalance)
    } else if b.user_msol < amount {
        Some(ErrorCode::InsufficientMsolBalance)
    } else {
        None
    }
}

/// The balances after a successful unstake: `amount` of receipt-token is
/// burned from the user, and `amount` of native value moves from the treasury
/// back to the user.
pub open spec fn unstake_apply(b: Balances, amount: u64) -> Balances {
    Balances {
        user_lamports: (b.user_lamports + amount) as u64,
        user_msol: (b.user_msol - amount) as u64,
        treasury_lamports: (b.treasury_lamports - amount) as u64,
        msol_supply: (b.msol_supply - amount) as u64,
    }
}

/// The first error an admin withdrawal runs into, if any, in the order the
/// checks are made: the caller must be the admin, the cooldown since the last
/// successful withdrawal must have elapsed, the amount must not exceed the
/// per-call limit, and the treasury must hold the amount.
pub open spec fn withdraw_check(
    p: StakingPool,
    treasury_lamports: u64,
    caller: Identity,
    now: i64,
    amount: u64,
) -> Option<ErrorCode> {
    if !same_identity(caller, p.admin) {
        Some(ErrorCode::Unauthorized)
    } else if now - p.last_withdrawal < p.time_lock {
        Some(ErrorCode::WithdrawalTooSoon)
    } else if amount > p.withdrawal_limit {
        Some(ErrorCode::WithdrawalLimitExceeded)
    } else if treasury_lamports < amount {
        Some(ErrorCode::InsufficientTreasuryBalance)
    } else {
        None
    }
}

/// Create the pool record.  The substrate rejects re-initialization of an
/// already-initialized pool, so this runs exactly once per pool; the caller
/// becomes both admin and upgrade authority, and no withdrawal has happened
/// yet.
pub fn initialize(
    mint_bump: u8,
    treasury: Identity,
    mint: Identity,
    admin: Identity,
    withdrawal_limit: u64,
    time_lock: i64,
) -> (r: (StakingPool, InitializeEvent))
    requires
        !is_null_identity(admin),
        time_lock >= 0,
    ensures
        r.0 == (StakingPool {
            mint_bump,
            treasury,
            admin,
            upgrade_authority: admin,
            withdrawal_limit,
            last_withdrawal: 0,
            time_lock,
        }),
        wf_pool(r.0),
        r.1 == (InitializeEvent { admin, treasury, mint }),
{
    let pool = StakingPool {
        mint_bump,
        treasury,
        admin,
        upgrade_authority: admin,
        withdrawal_limit,
        last_withdrawal: 0,
        time_lock,
    };
    let ev = InitializeEvent { admin, treasury, mint };
    (pool, ev)
}

/// Stake `amount`: move it from the user's native balance to the treasury and
/// mint the same amount of receipt-token to the user, atomically; or fail
/// with a specific error and change nothing.
pub fn stake(user: &Identity, b: &mut Balances, amount: u64) -> (r: Result<
    StakeEvent,
    ErrorCode,
>)
    requires
        wf_balances(*old(b)),
    ensures
        wf_balances(*final(b)),
        match stake_check(*old(b), amount) {
            Some(e) => r == Err::<StakeEvent, ErrorCode>(e) && *final(b) == *old(b),
            None => r == Ok::<StakeEvent, ErrorCode>(StakeEvent { user: *user, amount })
                && *final(b) == stake_apply(*old(b), amount),
        },
{
    if amount == 0 {
        return Err(ErrorCode::InvalidAmount);
    }
    if b.user_lamports < amount {
        return Err(ErrorCode::InsufficientFunds);
    }
    if amount > u64::MAX - b.msol_supply {
        return Err(ErrorCode::MintFailed);
    }
    b.user_lamports = b.user_lamports - amount;
    b.treasury_lamports = b.treasury_lamports + amount;
    b.user_msol = b.user_msol + amount;
    b.msol_supply = b.msol_supply + amount;
    Ok(StakeEvent { user: *user, amount })
}

/// Unstake `amount`: burn it from the user's receipt-token balance and pay the
/// same amount of native value out of the treasury to the user, atomically; or
/// fail with a specific error and change nothing.
pub fn unstake(user: &Identity, b: &mut Balances, amount: u64) -> (r: Result<
    UnstakeEvent,
    ErrorCode,
>)
    requires
        wf_balances(*old(b)),
    ensures
        wf_balances(*final(b)),
        match unstake_check(*old(b), amount) {
            Some(e) => r == Err::<UnstakeEvent, ErrorCode>(e) && *final(b) == *old(b),
            None => r == Ok::<UnstakeEvent, ErrorCode>(UnstakeEvent { user: *user, amount })
                && *final(b) == unstake_apply(*old(b), amount),
        },
{
    if amount == 0 {
        return Err(ErrorCode::InvalidAmount);
    }
    if b.treasury_lamports < amount {
        return Err(ErrorCode::InsufficientTreasuryBalance);
    }
    if b.user_msol < amount {
        return Err(ErrorCode::InsufficientMsolBalance);
    }
    b.user_msol = b.user_msol - amount;
    b.msol_supply = b.msol_supply - amount;
    b.treasury_lamports = b.treasury_lamports - amount;
    b.user_lamports = b.user_lamports + amount;
    Ok(UnstakeEvent { user: *user, amount })
}

/// Admin withdrawal of `amount` from the treasury at time `now`: debit the
/// treasury, credit the admin, and record `now` as the last withdrawal; or
/// fail with a specific error and change nothing.  The last-withdrawal
/// timestamp advances only on success and never decreases.
pub fn withdraw(
    pool: &mut StakingPool,
    caller: &Identity,
    now: i64,
    treasury_lamports: &mut u64,
    admin_lamports: &mut u64,
    amount: u64,
) -> (r: Result<WithdrawEvent, ErrorCode>)
    requires
        wf_pool(*old(pool)),
        now >= 0,
        *old(admin_lamports) + amount <= u64::MAX,
    ensures
        wf_pool(*final(pool)),
        final(pool).last_withdrawal >= old(pool).last_withdrawal,
        match withdraw_check(*old(pool), *old(treasury_lamports), *caller, now, amount) {
            Some(e) => r == Err::<WithdrawEvent, ErrorCode>(e) && *final(pool) == *old(pool)
                && *final(treasury_lamports) == *old(treasury_lamports)
                && *final(admin_lamports) == *old(admin_lamports),
            None => r == Ok::<WithdrawEvent, ErrorCode>(WithdrawEvent { admin: *caller, amount })
                && *final(pool) == (StakingPool { last_withdrawal: now, ..*old(pool) })
                && *final(treasury_lamports) == *old(treasury_lamports) - amount
                && *final(admin_lamports) == *old(admin_lamports) + amount,
        },
{
    if !caller.equals(&pool.admin) {
        return Err(ErrorCode::Unauthorized);
    }
    if now - pool.last_withdrawal < pool.time_lock {
        return Err(ErrorCode::WithdrawalTooSoon);
    }
    if amount > pool.withdrawal_limit {
        return Err(ErrorCode::WithdrawalLimitExceeded);
    }
    if *treasury_lamports < amount {
        return Err(ErrorCode::InsufficientTreasuryBalance);
    }
    *treasury_lamports = *treasury_lamports - amount;
    *admin_lamports = *admin_lamports + amount;
    pool.last_withdrawal = now;
    Ok(WithdrawEvent { admin: *caller, amount })
}

/// Reassign the admin.  Only the current admin may do so, and never to the
/// null identity; on failure the pool record is untouched, on success exactly
/// the admin field changes.
pub fn change_admin(pool: &mut StakingPool, caller: &Identity, new_admin: Identity) -> (r: Result<
    ChangeAdminEvent,
    ErrorCode,
>)
    requires
        wf_pool(*old(pool)),
    ensures
        wf_pool(*final(pool)),
        !same_identity(*caller, old(pool).admin) ==> r == Err::<ChangeAdminEvent, ErrorCode>(
            ErrorCode::Unauthorized,
        ) && *final(pool) == *old(pool),
        same_identity(*caller, old(pool).admin) && is_null_identity(new_admin) ==> r == Err::<
            ChangeAdminEvent,
            ErrorCode,
        >(ErrorCode::InvalidAdminAddress) && *final(pool) == *old(pool),
        same_identity(*caller, old(pool).admin) && !is_null_identity(new_admin) ==> r == Ok::<
            ChangeAdminEvent,
            ErrorCode,
        >(ChangeAdminEvent { old_admin: old(pool).admin, new_admin }) && *final(pool) == (
        StakingPool { admin: new_admin, ..*old(pool) }),
{
    if !caller.equals(&pool.admin) {
        return Err(ErrorCode::Unauthorized);
    }
    if new_admin.is_null() {
        return Err(ErrorCode::InvalidAdminAddress);
    }
    let ev = ChangeAdminEvent { old_admin: pool.admin, new_admin };
    pool.admin = new_admin;
    Ok(ev)
}

/// Reassign the upgrade authority.  Only the current upgrade authority may do
/// so, and never to the null identity; on failure the pool record is
/// untouched, on success exactly the upgrade-authority field changes.
pub fn set_upgrade_authority(
    pool: &mut StakingPool,
    caller: &Identity,
    new_upgrade_authority: Identity,
) -> (r: Result<SetUpgradeAuthorityEvent, ErrorCode>)
    requires
        wf_pool(*old(pool)),
    ensures
        wf_pool(*final(pool)),
        !same_identity(*caller, old(pool).upgrade_authority) ==> r == Err::<
            SetUpgradeAuthorityEvent,
            ErrorCode,
        >(ErrorCode::Unauthorized) && *final(pool) == *old(pool),
        same_identity(*caller, old(pool).upgrade_authority) && is_null_identity(
            new_upgrade_authority,
        ) ==> r == Err::<SetUpgradeAuthorityEvent, ErrorCode>(ErrorCode::InvalidUpgradeAuthority)
            && *final(pool) == *old(pool),
        same_identity(*caller, old(pool).upgrade_authority) && !is_null_identity(
            new_upgrade_authority,
        ) ==> r == Ok::<SetUpgradeAuthorityEvent, ErrorCode>(
            SetUpgradeAuthorityEvent {
                old_authority: old(pool).upgrade_authority,
                new_authority: new_upgrade_authority,
            },
        ) && *final(pool) == (StakingPool { upgrade_authority: new_upgrade_authority, ..*old(
            pool,
        ) }),
{
    if !caller.equals(&pool.upgrade_authority) {
        return Err(ErrorCode::Unauthorized);
    }
    if new_upgrade_authority.is_null() {
        return Err(ErrorCode::InvalidUpgradeAuthority);
    }
    let ev = SetUpgradeAuthorityEvent {
        old_authority: pool.upgrade_authority,
        new_authority: new_upgrade_authority,
    };
    pool.upgrade_authority = new_upgrade_authority;
    Ok(ev)
}

} // verus!
