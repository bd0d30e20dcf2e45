//! The four operations of the lifecycle engine: create, join, close, and
//! payout. Each validates before it mutates, so a rejected call leaves
//! every record exactly as it was.

use vstd::prelude::*;

use crate::pool::{
    code_matches, code_supplied, join_step, synced, ErrorCode, MemberJoined, Pool, PoolCreated,
    PoolPrivacy, PoolStatus, PoolVault, VaultUpdated,
};

verus! {

/// Opens a pool: validates the capacity and the access code, computes the
/// per-member share once, and returns the fresh pool record, its empty
/// custody record, and the creation notification. The two records come into
/// being together or not at all. A public pool stores an empty code, whatever
/// was supplied.
pub fn initialize_pool(
    creator: u64,
    pool_id: u64,
    number_of_max_members: u8,
    price: u64,
    privacy: PoolPrivacy,
    pool_code: Option<String>,
) -> (r: Result<(Pool, PoolVault, PoolCreated), ErrorCode>)
    ensures
        r is Ok <==> (number_of_max_members > 0 && (privacy == PoolPrivacy::Private
            ==> code_supplied(pool_code))),
        number_of_max_members == 0 ==> r == Err::<(Pool, PoolVault, PoolCreated), ErrorCode>(
            ErrorCode::InvalidNumberOfMaxMembers,
        ),
        number_of_max_members > 0 && privacy == PoolPrivacy::Private && !code_supplied(pool_code)
            ==> r == Err::<(Pool, PoolVault, PoolCreated), ErrorCode>(ErrorCode::PoolCodeRequired),
        r matches Ok(t) ==> {
            &&& t.0.well_formed()
            &&& t.0.creator == creator
            &&& t.0.members@ == Seq::<u64>::empty()
            &&& t.0.number_of_max_members == number_of_max_members
            &&& t.0.price == price
            &&& t.0.price_per_member == price as int / number_of_max_members as int
            &&& t.0.status == PoolStatus::Open
            &&& t.0.privacy == privacy
            &&& (privacy == PoolPrivacy::Private ==> code_matches(t.0.pool_code@, pool_code))
            &&& (privacy == PoolPrivacy::Public ==> t.0.pool_code@.len() == 0)
            &&& t.0.vault == 0
            &&& t.1.amount == 0
            &&& t.2 == (PoolCreated { pool: pool_id, creator, number_of_max_members, price, privacy })
        },
{
    if number_of_max_members == 0 {
        return Err(ErrorCode::InvalidNumberOfMaxMembers);
    }
    let price_per_member: u64 = price / (number_of_max_members as u64);
    let code: String = if privacy == PoolPrivacy::Private {
        match pool_code {
            None => {
                return Err(ErrorCode::PoolCodeRequired);
            },
            Some(c) => {
                if c.as_str().is_empty() {
                    return Err(ErrorCode::PoolCodeRequired);
                }
                c
            },
        }
    } else {
        String::new()
    };
    let pool = Pool {
        creator,
        members: Vec::new(),
        number_of_max_members,
        price,
        price_per_member,
        status: PoolStatus::Open,
        privacy,
        pool_code: code,
        vault: 0,
    };
    let vault = PoolVault { amount: 0 };
    let created = PoolCreated { pool: pool_id, creator, number_of_max_members, price, privacy };
    Ok((pool, vault, created))
}

/// The admission checks of `join_pool` all pass: the pool still admits
/// members, a slot is free, and a private pool's code matches.
pub open spec fn join_admissible(pool: Pool, pool_code: Option<String>) -> bool {
    &&& pool.status == PoolStatus::Open
    &&& pool.members@.len() < pool.number_of_max_members as int
    &&& (pool.privacy == PoolPrivacy::Private ==> code_matches(pool.pool_code@, pool_code))
}

/// `k` shares never exceed the price they divide: with `ppm == price / max`
/// and `k <= max`, `k * ppm <= max * ppm <= price`.
proof fn lemma_share_total_bounded(k: int, max: int, price: int, ppm: int)
    requires
        0 < max,
        0 <= k <= max,
        0 <= price,
        ppm == price / max,
    ensures
        0 <= k * ppm,
        k * ppm <= price,
{
    vstd::arithmetic::div_mod::lemma_div_pos_is_pos(price, max);
    vstd::arithmetic::mul::lemma_mul_nonnegative(k, ppm);
    vstd::arithmetic::mul::lemma_mul_inequality(k, max, ppm);
    vstd::arithmetic::div_mod::lemma_fundamental_div_mod(price, max);
    vstd::arithmetic::div_mod::lemma_mod_bound(price, max);
}

/// Admits one member: checks status, capacity and the access code, then
/// moves exactly one share from the member's balance into the custody
/// record, appends the member, and flips the status to `Full` when the last
/// slot is taken — all in one step, or not at all. Returns the two
/// notifications to emit.
pub fn join_pool(
    pool: &mut Pool,
    pool_vault: &mut PoolVault,
    member_balance: &mut u64,
    new_member: u64,
    pool_id: u64,
    pool_code: Option<String>,
) -> (r: Result<(MemberJoined, VaultUpdated), ErrorCode>)
    requires
        old(pool).well_formed(),
    ensures
        final(pool).well_formed(),
        old(pool).status != PoolStatus::Open ==> r == Err::<(MemberJoined, VaultUpdated), ErrorCode>(
            ErrorCode::PoolNotOpen,
        ),
        old(pool).status == PoolStatus::Open && old(pool).members@.len()
            >= old(pool).number_of_max_members as int ==> r == Err::<
            (MemberJoined, VaultUpdated),
            ErrorCode,
        >(ErrorCode::PoolFull),
        old(pool).status == PoolStatus::Open && old(pool).members@.len()
            < old(pool).number_of_max_members as int && old(pool).privacy == PoolPrivacy::Private
            && pool_code is None ==> r == Err::<(MemberJoined, VaultUpdated), ErrorCode>(
            ErrorCode::PoolCodeRequired,
        ),
        old(pool).status == PoolStatus::Open && old(pool).members@.len()
            < old(pool).number_of_max_members as int && old(pool).privacy == PoolPrivacy::Private
            && (pool_code matches Some(c) && c@ != old(pool).pool_code@) ==> r == Err::<
            (MemberJoined, VaultUpdated),
            ErrorCode,
        >(ErrorCode::WrongPoolCode),
        join_admissible(*old(pool), pool_code) && *old(member_balance)
            < old(pool).price_per_member ==> r == Err::<(MemberJoined, VaultUpdated), ErrorCode>(
            ErrorCode::InsufficientFunds,
        ),
        join_admissible(*old(pool), pool_code) && *old(member_balance)
            >= old(pool).price_per_member && old(pool_vault).amount + old(pool).price_per_member
            > u64::MAX ==> r == Err::<(MemberJoined, VaultUpdated), ErrorCode>(ErrorCode::Overflow),
        r is Err ==> *final(pool) == *old(pool) && *final(pool_vault) == *old(pool_vault)
            && *final(member_balance) == *old(member_balance),
        r is Ok <==> (join_admissible(*old(pool), pool_code)
            && *old(member_balance) >= old(pool).price_per_member
            && old(pool_vault).amount + old(pool).price_per_member <= u64::MAX),
        r is Ok ==> {
            &&& join_step(*old(pool), *final(pool), new_member)
            &&& final(pool_vault).amount == old(pool_vault).amount + old(pool).price_per_member
            &&& *final(member_balance) == *old(member_balance) - old(pool).price_per_member
            &&& r == Ok::<(MemberJoined, VaultUpdated), ErrorCode>(
                (
                    MemberJoined { pool: pool_id, member: new_member },
                    VaultUpdated { pool: pool_id, amount: old(pool).price_per_member },
                ),
            )
        },
        synced(*old(pool), *old(pool_vault)) ==> synced(*final(pool), *final(pool_vault)),
{
    if !(pool.status == PoolStatus::Open) {
        return Err(ErrorCode::PoolNotOpen);
    }
    let number_of_members: usize = pool.members.len();
    if number_of_members >= pool.number_of_max_members as usize {
        return Err(ErrorCode::PoolFull);
    }
    if pool.privacy == PoolPrivacy::Private {
        match &pool_code {
            None => {
                return Err(ErrorCode::PoolCodeRequired);
            },
            Some(c) => {
                if !(pool.pool_code == *c) {
                    return Err(ErrorCode::WrongPoolCode);
                }
            },
        }
    }
    let amount: u64 = pool.price_per_member;
    if *member_balance < amount {
        return Err(ErrorCode::InsufficientFunds);
    }
    if pool_vault.amount > u64::MAX - amount {
        return Err(ErrorCode::Overflow);
    }
    proof {
        let len = old(pool).members@.len() as int;
        let ppm = old(pool).price_per_member as int;
        lemma_share_total_bounded(
            len + 1,
            old(pool).number_of_max_members as int,
            old(pool).price as int,
            ppm,
        );
        vstd::arithmetic::mul::lemma_mul_is_distributive_add_other_way(ppm, len, 1);
    }
    *member_balance = *member_balance - amount;
    pool_vault.amount = pool_vault.amount + amount;
    pool.vault = pool.vault + amount;
    pool.members.push(new_member);
    if pool.members.len() == pool.number_of_max_members as usize {
        pool.status = PoolStatus::Full;
    }
    Ok((
        MemberJoined { pool: pool_id, member: new_member },
        VaultUpdated { pool: pool_id, amount },
    ))
}

/// Marks the pool closed, whatever its prior status; only the creator may
/// do so, and no funds move.
pub fn close_pool(pool: &mut Pool, authority: u64) -> (r: Result<(), ErrorCode>)
    requires
        old(pool).well_formed(),
    ensures
        final(pool).well_formed(),
        authority != old(pool).creator ==> r == Err::<(), ErrorCode>(
            ErrorCode::InvalidCreatorAccount,
        ) && *final(pool) == *old(pool),
        authority == old(pool).creator ==> r == Ok::<(), ErrorCode>(()) && *final(pool) == (Pool {
            status: PoolStatus::Closed,
            ..*old(pool)
        }),
{
    if authority != pool.creator {
        return Err(ErrorCode::InvalidCreatorAccount);
    }
    pool.status = PoolStatus::Closed;
    Ok(())
}

/// Withdraws `amount` from the custody record to the creator's balance;
/// only the creator may do so, and the withdrawal is not gated by the
/// pool's status. Rejected calls move nothing.
pub fn transfer_to_creator(
    pool: &Pool,
    pool_vault: &mut PoolVault,
    creator_balance: &mut u64,
    authority: u64,
    amount: u64,
) -> (r: Result<(), ErrorCode>)
    ensures
        authority != pool.creator ==> r == Err::<(), ErrorCode>(ErrorCode::InvalidCreatorAccount),
        authority == pool.creator && old(pool_vault).amount < amount ==> r == Err::<(), ErrorCode>(
            ErrorCode::InsufficientFunds,
        ),
        authority == pool.creator && amount <= old(pool_vault).amount && *old(creator_balance)
            + amount > u64::MAX ==> r == Err::<(), ErrorCode>(ErrorCode::Overflow),
        r is Ok <==> (authority == pool.creator && amount <= old(pool_vault).amount
            && *old(creator_balance) + amount <= u64::MAX),
        r is Err ==> *final(pool_vault) == *old(pool_vault)
            && *final(creator_balance) == *old(creator_balance),
        r is Ok ==> final(pool_vault).amount == old(pool_vault).amount - amount
            && *final(creator_balance) == *old(creator_balance) + amount,
{
    if authority != pool.creator {
        return Err(ErrorCode::InvalidCreatorAccount);
    }
    if pool_vault.amount < amount {
        return Err(ErrorCode::InsufficientFunds);
    }
    if *creator_balance > u64::MAX - amount {
        return Err(ErrorCode::Overflow);
    }
    pool_vault.amount = pool_vault.amount - amount;
    *creator_balance = *creator_balance + amount;
    Ok(())
}

} // verus!
