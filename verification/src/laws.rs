//! The library-wide laws of the staking engine, stated and proved over the
//! same spec-level transitions that the executable operations are proved to
//! follow.

use vstd::prelude::*;
use crate::engine::{
    Balances, stake_apply, stake_check, unstake_apply, unstake_check, wf_balances, withdraw_check,
};
use crate::errors::ErrorCode;
use crate::identity::Identity;
use crate::pool::{StakingPool, wf_pool};

verus! {

/// One user-driven flow: a stake or an unstake of the given amount.
#[derive(Clone, Copy, Debug, PartialEq, Eq, Structural)]
pub enum FlowOp {
    Stake(u64),
    Unstake(u64),
}

/// The balances after one flow: the operation's effect if its checks pass,
/// the balances untouched if it fails.
pub open spec fn apply_flow(b: Balances, op: FlowOp) -> Balances {
    match op {
        FlowOp::Stake(amount) => if stake_check(b, amount) is None {
            stake_apply(b, amount)
        } else {
            b
        },
        FlowOp::Unstake(amount) => if unstake_check(b, amount) is None {
            unstake_apply(b, amount)
        } else {
            b
        },
    }
}

/// The balances after a whole sequence of flows, applied in order.
pub open spec fn apply_flows(b: Balances, ops: Seq<FlowOp>) -> Balances
    decreases ops.len(),
{
    if ops.len() == 0 {
        b
    } else {
        apply_flows(apply_flow(b, ops[0]), ops.drop_first())
    }
}

/// Cumulative staked value minus cumulative unstaked value over a sequence of
/// flows, counting only the flows whose checks pass.
pub open spec fn net_flow(b: Balances, ops: Seq<FlowOp>) -> int
    decreases ops.len(),
{
    if ops.len() == 0 {
        0
    } else {
        let delta: int = match ops[0] {
            FlowOp::Stake(amount) => if stake_check(b, amount) is None {
                amount as int
            } else {
                0
            },
            FlowOp::Unstake(amount) => if unstake_check(b, amount) is None {
                -(amount as int)
            } else {
                0
            },
        };
        delta + net_flow(apply_flow(b, ops[0]), ops.drop_first())
    }
}

/// One flow keeps the balances well formed and moves treasury balance and
/// receipt-token supply in lockstep: their difference is unchanged whether
/// the flow applies or fails.
pub proof fn lemma_flow_preserves_backing(b: Balances, op: FlowOp)
    requires
        wf_balances(b),
    ensures
        wf_balances(apply_flow(b, op)),
        apply_flow(b, op).treasury_lamports - apply_flow(b, op).msol_supply
            == b.treasury_lamports - b.msol_supply,
{
}

/// Over every sequence of stakes and unstakes with no admin withdrawal
/// interleaved, starting from balances whose treasury exactly backs the
/// supply: the outstanding receipt-token supply, the treasury balance, and
/// the initial supply plus the cumulative net (staked minus unstaked) flow
/// all remain equal, and the balances remain well formed.
pub proof fn lemma_flows_preserve_backing(b: Balances, ops: Seq<FlowOp>)
    requires
        wf_balances(b),
        b.treasury_lamports == b.msol_supply,
    ensures
        wf_balances(apply_flows(b, ops)),
        apply_flows(b, ops).msol_supply == apply_flows(b, ops).treasury_lamports,
        apply_flows(b, ops).msol_supply == b.msol_supply + net_flow(b, ops),
    decreases ops.len(),
{
    if ops.len() > 0 {
        lemma_flow_preserves_backing(b, ops[0]);
        lemma_flows_preserve_backing(apply_flow(b, ops[0]), ops.drop_first());
    }
}

/// A second withdrawal attempted within the cooldown of a successful one
/// fails with the cooldown error, whoever attempts it with the admin's
/// identity and whatever amount is asked for.
pub proof fn lemma_withdraw_cooldown(
    p: StakingPool,
    treasury_lamports: u64,
    caller: Identity,
    now1: i64,
    amount1: u64,
    now2: i64,
    amount2: u64,
)
    requires
        wf_pool(p),
        now1 >= 0,
        withdraw_check(p, treasury_lamports, caller, now1, amount1) is None,
        now2 - now1 < p.time_lock,
    ensures
        withdraw_check(
            StakingPool { last_withdrawal: now1, ..p },
            (treasury_lamports - amount1) as u64,
            caller,
            now2,
            amount2,
        ) == Some(ErrorCode::WithdrawalTooSoon),
{
}

} // verus!
