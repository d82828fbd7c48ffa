use sol_staking::engine::{
    initialize, stake, unstake, withdraw, change_admin, set_upgrade_authority, Balances,
};
use sol_staking::errors::ErrorCode;
use sol_staking::identity::Identity;

fn id(tag: u8) -> Identity {
    Identity { bytes: [tag; 32] }
}

fn null_id() -> Identity {
    Identity { bytes: [0; 32] }
}

#[test]
fn initialize_sets_every_field() {
    let admin = id(1);
    let treasury = id(2);
    let mint = id(3);
    let (pool, ev) = initialize(254, treasury, mint, admin, 100, 3600);
    assert_eq!(pool.mint_bump, 254);
    assert_eq!(pool.treasury.bytes, treasury.bytes);
    assert_eq!(pool.admin.bytes, admin.bytes);
    assert_eq!(pool.upgrade_authority.bytes, admin.bytes);
    assert_eq!(pool.withdrawal_limit, 100);
    assert_eq!(pool.last_withdrawal, 0);
    assert_eq!(pool.time_lock, 3600);
    assert_eq!(ev.admin.bytes, admin.bytes);
    assert_eq!(ev.treasury.bytes, treasury.bytes);
    assert_eq!(ev.mint.bytes, mint.bytes);
}

#[test]
fn stake_moves_value_and_mints_one_to_one() {
    let user = id(7);
    let mut b = Balances { user_lamports: 100, user_msol: 0, treasury_lamports: 0, msol_supply: 0 };
    let ev = stake(&user, &mut b, 50).unwrap();
    assert_eq!(ev.user.bytes, user.bytes);
    assert_eq!(ev.amount, 50);
    assert_eq!(b.user_lamports, 50);
    assert_eq!(b.user_msol, 50);
    assert_eq!(b.treasury_lamports, 50);
    assert_eq!(b.msol_supply, 50);
}

#[test]
fn zero_amounts_are_rejected() {
    let user = id(7);
    let mut b = Balances { user_lamports: 100, user_msol: 10, treasury_lamports: 10, msol_supply: 10 };
    let before = b;
    assert_eq!(stake(&user, &mut b, 0).unwrap_err(), ErrorCode::InvalidAmount);
    assert_eq!(b, before);
    assert_eq!(unstake(&user, &mut b, 0).unwrap_err(), ErrorCode::InvalidAmount);
    assert_eq!(b, before);
}

#[test]
fn stake_without_funds_fails_and_changes_nothing() {
    let user = id(7);
    let mut b = Balances { user_lamports: 30, user_msol: 0, treasury_lamports: 5, msol_supply: 5 };
    let before = b;
    assert_eq!(stake(&user, &mut b, 31).unwrap_err(), ErrorCode::InsufficientFunds);
    assert_eq!(b, before);
}

#[test]
fn stake_that_would_overflow_the_supply_fails_as_mint_failure() {
    let user = id(7);
    let mut b = Balances {
        user_lamports: 100,
        user_msol: 0,
        treasury_lamports: 0,
        msol_supply: u64::MAX - 10,
    };
    let before = b;
    assert_eq!(stake(&user, &mut b, 11).unwrap_err(), ErrorCode::MintFailed);
    assert_eq!(b, before);
}

#[test]
fn unstake_without_receipt_tokens_fails_and_changes_nothing() {
    let user = id(7);
    let mut b = Balances { user_lamports: 0, user_msol: 19, treasury_lamports: 40, msol_supply: 40 };
    let before = b;
    assert_eq!(unstake(&user, &mut b, 20).unwrap_err(), ErrorCode::InsufficientMsolBalance);
    assert_eq!(b, before);
}

#[test]
fn unstake_beyond_treasury_fails_even_with_enough_receipt_tokens() {
    let user = id(7);
    // The admin has previously drained the treasury below the supply.
    let mut b = Balances { user_lamports: 0, user_msol: 30, treasury_lamports: 10, msol_supply: 30 };
    let before = b;
    assert_eq!(
        unstake(&user, &mut b, 20).unwrap_err(),
        ErrorCode::InsufficientTreasuryBalance
    );
    assert_eq!(b, before);
}

#[test]
fn unstake_burns_and_pays_out_one_to_one() {
    let user = id(7);
    let mut b = Balances { user_lamports: 1, user_msol: 50, treasury_lamports: 50, msol_supply: 50 };
    let ev = unstake(&user, &mut b, 20).unwrap();
    assert_eq!(ev.user.bytes, user.bytes);
    assert_eq!(ev.amount, 20);
    assert_eq!(b.user_lamports, 21);
    assert_eq!(b.user_msol, 30);
    assert_eq!(b.treasury_lamports, 30);
    assert_eq!(b.msol_supply, 30);
}

#[test]
fn withdraw_by_non_admin_is_unauthorized() {
    let admin = id(1);
    let stranger = id(9);
    let (mut pool, _) = initialize(254, id(2), id(3), admin, 100, 3600);
    let mut treasury: u64 = 50;
    let mut wallet: u64 = 0;
    let r = withdraw(&mut pool, &stranger, 5000, &mut treasury, &mut wallet, 10);
    assert_eq!(r.unwrap_err(), ErrorCode::Unauthorized);
    assert_eq!(treasury, 50);
    assert_eq!(wallet, 0);
    assert_eq!(pool.last_withdrawal, 0);
}

#[test]
fn withdraw_over_the_limit_fails_and_leaves_the_treasury() {
    let admin = id(1);
    let (mut pool, _) = initialize(254, id(2), id(3), admin, 100, 3600);
    let mut treasury: u64 = 500;
    let mut wallet: u64 = 0;
    let r = withdraw(&mut pool, &admin, 5000, &mut treasury, &mut wallet, 101);
    assert_eq!(r.unwrap_err(), ErrorCode::WithdrawalLimitExceeded);
    assert_eq!(treasury, 500);
    assert_eq!(wallet, 0);
    assert_eq!(pool.last_withdrawal, 0);
}

#[test]
fn withdraw_beyond_the_treasury_fails() {
    let admin = id(1);
    let (mut pool, _) = initialize(254, id(2), id(3), admin, 100, 3600);
    let mut treasury: u64 = 7;
    let mut wallet: u64 = 0;
    let r = withdraw(&mut pool, &admin, 5000, &mut treasury, &mut wallet, 8);
    assert_eq!(r.unwrap_err(), ErrorCode::InsufficientTreasuryBalance);
    assert_eq!(treasury, 7);
}

#[test]
fn second_withdrawal_within_the_cooldown_fails() {
    let admin = id(1);
    let (mut pool, _) = initialize(254, id(2), id(3), admin, 100, 3600);
    let mut treasury: u64 = 50;
    let mut wallet: u64 = 0;
    let ev = withdraw(&mut pool, &admin, 5000, &mut treasury, &mut wallet, 10).unwrap();
    assert_eq!(ev.amount, 10);
    assert_eq!(pool.last_withdrawal, 5000);
    assert_eq!(treasury, 40);
    assert_eq!(wallet, 10);
    // 3599 seconds later: still inside the cooldown.
    let r = withdraw(&mut pool, &admin, 8599, &mut treasury, &mut wallet, 10);
    assert_eq!(r.unwrap_err(), ErrorCode::WithdrawalTooSoon);
    assert_eq!(pool.last_withdrawal, 5000);
    assert_eq!(treasury, 40);
    assert_eq!(wallet, 10);
    // Exactly the cooldown later: allowed again.
    let ev = withdraw(&mut pool, &admin, 8600, &mut treasury, &mut wallet, 10).unwrap();
    assert_eq!(ev.amount, 10);
    assert_eq!(pool.last_withdrawal, 8600);
    assert_eq!(treasury, 30);
    assert_eq!(wallet, 20);
}

#[test]
fn change_admin_is_guarded_and_touches_only_the_admin_field() {
    let admin = id(1);
    let stranger = id(9);
    let new_admin = id(4);
    let (mut pool, _) = initialize(254, id(2), id(3), admin, 100, 3600);

    let r = change_admin(&mut pool, &stranger, new_admin);
    assert_eq!(r.unwrap_err(), ErrorCode::Unauthorized);
    assert_eq!(pool.admin.bytes, admin.bytes);

    let r = change_admin(&mut pool, &admin, null_id());
    assert_eq!(r.unwrap_err(), ErrorCode::InvalidAdminAddress);
    assert_eq!(pool.admin.bytes, admin.bytes);

    let ev = change_admin(&mut pool, &admin, new_admin).unwrap();
    assert_eq!(ev.old_admin.bytes, admin.bytes);
    assert_eq!(ev.new_admin.bytes, new_admin.bytes);
    assert_eq!(pool.admin.bytes, new_admin.bytes);
    assert_eq!(pool.upgrade_authority.bytes, admin.bytes);
    assert_eq!(pool.withdrawal_limit, 100);
    assert_eq!(pool.time_lock, 3600);
}

#[test]
fn set_upgrade_authority_is_guarded_and_touches_only_its_field() {
    let admin = id(1);
    let stranger = id(9);
    let new_authority = id(5);
    let (mut pool, _) = initialize(254, id(2), id(3), admin, 100, 3600);

    let r = set_upgrade_authority(&mut pool, &stranger, new_authority);
    assert_eq!(r.unwrap_err(), ErrorCode::Unauthorized);
    assert_eq!(pool.upgrade_authority.bytes, admin.bytes);

    let r = set_upgrade_authority(&mut pool, &admin, null_id());
    assert_eq!(r.unwrap_err(), ErrorCode::InvalidUpgradeAuthority);
    assert_eq!(pool.upgrade_authority.bytes, admin.bytes);

    let ev = set_upgrade_authority(&mut pool, &admin, new_authority).unwrap();
    assert_eq!(ev.old_authority.bytes, admin.bytes);
    assert_eq!(ev.new_authority.bytes, new_authority.bytes);
    assert_eq!(pool.upgrade_authority.bytes, new_authority.bytes);
    assert_eq!(pool.admin.bytes, admin.bytes);
}

#[test]
fn end_to_end_backing_then_withdrawal_then_cooldown() {
    let admin = id(1);
    let user = id(7);
    let (mut pool, _) = initialize(254, id(2), id(3), admin, 100, 3600);

    let mut b = Balances { user_lamports: 80, user_msol: 0, treasury_lamports: 0, msol_supply: 0 };
    stake(&user, &mut b, 50).unwrap();
    assert_eq!(b.treasury_lamports, 50);
    assert_eq!(b.msol_supply, 50);

    unstake(&user, &mut b, 20).unwrap();
    assert_eq!(b.treasury_lamports, 30);
    assert_eq!(b.msol_supply, 30);

    let now = 1_000_000;
    let mut wallet: u64 = 0;
    let ev = withdraw(&mut pool, &admin, now, &mut b.treasury_lamports, &mut wallet, 10).unwrap();
    assert_eq!(ev.amount, 10);
    assert_eq!(b.treasury_lamports, 20);
    assert_eq!(pool.last_withdrawal, now);

    let r = withdraw(&mut pool, &admin, now, &mut b.treasury_lamports, &mut wallet, 10);
    assert_eq!(r.unwrap_err(), ErrorCode::WithdrawalTooSoon);
    assert_eq!(b.treasury_lamports, 20);
}
