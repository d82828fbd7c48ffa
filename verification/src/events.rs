//! Events: the append-only notifications emitted after each successful
//! operation, consumed by off-system observers and never consulted for the
//! engine's own invariants.

use vstd::prelude::*;
use crate::identity::Identity;

verus! {

/// Emitted once, when the pool is created.
#[derive(Clone, Copy, Debug)]
pub struct InitializeEvent {
    pub admin: Identity,
    pub treasury: Identity,
    pub mint: Identity,
}

/// Emitted after a successful stake.
#[derive(Clone, Copy, Debug)]
pub struct StakeEvent {
    pub user: Identity,
    pub amount: u64,
}

/// Emitted after a successful unstake.
#[derive(Clone, Copy, Debug)]
pub struct UnstakeEvent {
    pub user: Identity,
    pub amount: u64,
}

/// Emitted after a successful admin withdrawal.
#[derive(Clone, Copy, Debug)]
pub struct WithdrawEvent {
    pub admin: Identity,
    pub amount: u64,
}

/// Emitted after the receipt-token's metadata has been registered.
#[derive(Clone, Copy, Debug)]
pub struct CreateMetadataEvent {
    pub mint: Identity,
    pub metadata: Identity,
}

/// Emitted after the admin has been reassigned.
#[derive(Clone, Copy, Debug)]
pub struct ChangeAdminEvent {
    pub old_admin: Identity,
    pub new_admin: Identity,
}

/// Emitted after the upgrade authority has been reassigned.
#[derive(Clone, Copy, Debug)]
pub struct SetUpgradeAuthorityEvent {
    pub old_authority: Identity,
    pub new_authority: Identity,
}

/// Any notification the pool can emit.
#[derive(Clone, Copy, Debug)]
pub enum PoolEvent {
    Initialize(InitializeEvent),
    Stake(StakeEvent),
    Unstake(UnstakeEvent),
    Withdraw(WithdrawEvent),
    CreateMetadata(CreateMetadataEvent),
    ChangeAdmin(ChangeAdminEvent),
    SetUpgradeAuthority(SetUpgradeAuthorityEvent),
}

/// An append-only log of emitted events.
pub struct EventLog {
    events: Vec<PoolEvent>,
}

impl View for EventLog {
    type V = Seq<PoolEvent>;

    closed spec fn view(&self) -> Seq<PoolEvent> {
        self.events@
    }
}

impl EventLog {
    pub fn new() -> (r: EventLog)
        ensures
            r@ == Seq::<PoolEvent>::empty(),
    {
        EventLog { events: Vec::new() }
    }

    /// Append a notification; nothing already logged is touched.
    pub fn emit(&mut self, e: PoolEvent)
        ensures
            final(self)@ == old(self)@.push(e),
    {
        self.events.push(e);
    }

    pub fn len(&self) -> (r: usize)
        ensures
            r == self@.len(),
    {
        self.events.len()
    }

    pub fn get(&self, i: usize) -> (r: &PoolEvent)
        requires
            i < self@.len(),
        ensures
            *r == self@[i as int],
    {
        &self.events[i]
    }
}

} // verus!
