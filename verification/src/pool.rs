//! The data model: pool and vault records, their status and privacy
//! variants, the error taxonomy, the notification payloads, and the
//! well-formedness invariant that every operation preserves.

use vstd::prelude::*;

verus! {

/// Lifecycle state of a pool. `Canceled` is a valid terminal state that no
/// operation currently produces; it exists for forward compatibility.
#[derive(Clone, Copy, PartialEq, Eq, Structural, Debug)]
pub enum PoolStatus {
    Open,
    Full,
    Closed,
    Canceled,
}

/// Whether joining requires the pool's access code.
#[derive(Clone, Copy, PartialEq, Eq, Structural, Debug)]
pub enum PoolPrivacy {
    Private,
    Public,
}

/// Why an operation was rejected. Every rejection happens before any record
/// is mutated or any funds move.
#[derive(Clone, Copy, PartialEq, Eq, Structural, Debug)]
pub enum ErrorCode {
    /// The requested capacity was zero.
    InvalidNumberOfMaxMembers,
    /// Every member slot is already taken.
    PoolFull,
    /// The pool no longer admits members.
    PoolNotOpen,
    /// A private pool needs a non-empty access code.
    PoolCodeRequired,
    /// The supplied access code does not match the stored one.
    WrongPoolCode,
    /// A balance would exceed the largest representable amount.
    Overflow,
    /// Defensive guard for an undefined division; unreachable, since a zero
    /// capacity is rejected first.
    DivisionByZero,
    /// The paying account holds less than the amount to transfer.
    InsufficientFunds,
    /// The caller is not the pool's creator.
    InvalidCreatorAccount,
}

/// A campaign record: capacity, pricing, membership, status, and a mirror
/// of the custody balance kept for visibility.
pub struct Pool {
    /// Identity of the account that opened the pool; sole authority for
    /// `close_pool` and `transfer_to_creator`.
    pub creator: u64,
    /// Identities of the joined members, in join order.
    pub members: Vec<u64>,
    /// Positive member capacity, fixed at creation.
    pub number_of_max_members: u8,
    /// Total target amount, fixed at creation.
    pub price: u64,
    /// The authoritative per-member contribution, computed once at creation.
    pub price_per_member: u64,
    pub status: PoolStatus,
    pub privacy: PoolPrivacy,
    /// Access code; non-empty exactly when the pool is private.
    pub pool_code: String,
    /// Mirror of the contributions received, updated in lockstep with the
    /// custody record by `join_pool`.
    pub vault: u64,
}

/// The custody record holding the actual transferred balance, one per pool.
#[derive(Clone, Copy, PartialEq, Eq, Structural, Debug)]
pub struct PoolVault {
    pub amount: u64,
}

/// Notification emitted after a pool is created. Carries the capacity,
/// price and privacy, never the access code.
#[derive(Clone, Copy, PartialEq, Eq, Structural, Debug)]
pub struct PoolCreated {
    pub pool: u64,
    pub creator: u64,
    pub number_of_max_members: u8,
    pub price: u64,
    pub privacy: PoolPrivacy,
}

/// Notification emitted after a member joins.
#[derive(Clone, Copy, PartialEq, Eq, Structural, Debug)]
pub struct MemberJoined {
    pub pool: u64,
    pub member: u64,
}

/// Notification emitted after the custody balance changes on a join;
/// `amount` is the contribution just received.
#[derive(Clone, Copy, PartialEq, Eq, Structural, Debug)]
pub struct VaultUpdated {
    pub pool: u64,
    pub amount: u64,
}

impl Pool {
    /// A pool as `initialize_pool` creates it and as every operation leaves
    /// it: positive capacity, membership within capacity, the stored share
    /// equal to the price divided by the capacity, `Full` only at capacity,
    /// the access code present exactly on private pools, and the mirrored
    /// balance equal to the members' contributions.
    pub open spec fn well_formed(self) -> bool {
        &&& 0 < self.number_of_max_members
        &&& self.members@.len() <= self.number_of_max_members as int
        &&& self.price_per_member == self.price as int / self.number_of_max_members as int
        &&& (self.status == PoolStatus::Full ==> self.members@.len()
            == self.number_of_max_members as int)
        &&& (self.privacy == PoolPrivacy::Private ==> self.pool_code@.len() > 0)
        &&& (self.privacy == PoolPrivacy::Public ==> self.pool_code@.len() == 0)
        &&& self.vault == self.members@.len() * self.price_per_member
    }
}

/// The pool's mirrored balance agrees with the custody record. Established
/// at creation and preserved by `join_pool`; `transfer_to_creator`
/// deliberately debits the custody record alone.
pub open spec fn synced(pool: Pool, vault: PoolVault) -> bool {
    pool.vault == vault.amount
}

/// The transition a successful `join_pool` makes on the pool record: one
/// member appended, one share credited to the mirror, the status flipped to
/// `Full` exactly when the last slot is taken, and everything else kept.
pub open spec fn join_step(before: Pool, after: Pool, member: u64) -> bool {
    &&& before.status == PoolStatus::Open
    &&& before.members@.len() < before.number_of_max_members as int
    &&& after.members@ == before.members@.push(member)
    &&& after.status == (if before.members@.len() + 1 == before.number_of_max_members as int {
        PoolStatus::Full
    } else {
        PoolStatus::Open
    })
    &&& after.creator == before.creator
    &&& after.number_of_max_members == before.number_of_max_members
    &&& after.price == before.price
    &&& after.price_per_member == before.price_per_member
    &&& after.privacy == before.privacy
    &&& after.pool_code == before.pool_code
    &&& after.vault == before.vault + before.price_per_member
}

/// A usable access code was supplied: present and non-empty.
pub open spec fn code_supplied(pool_code: Option<String>) -> bool {
    pool_code matches Some(c) && c@.len() > 0
}

/// The supplied code exactly matches the stored one.
pub open spec fn code_matches(stored: Seq<char>, supplied: Option<String>) -> bool {
    supplied matches Some(c) && c@ == stored
}

} // verus!
