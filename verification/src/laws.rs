//! Laws that relate the operations: statements that hold of every
//! well-formed pool, proved once and for all.

use vstd::prelude::*;

use crate::pool::{join_step, synced, Pool, PoolStatus, PoolVault};

verus! {

/// Admission over a whole campaign: starting from a freshly created pool,
/// any chain of successful joins that stays within the capacity leaves,
/// after the `i`-th join, exactly the first `i` joiners as members in join
/// order, the status `Open` until the last slot is taken and `Full` at
/// that moment, and `i` shares in the mirrored balance.
pub proof fn lemma_join_sequence(pools: Seq<Pool>, joined: Seq<u64>)
    requires
        pools.len() == joined.len() + 1,
        pools[0].well_formed(),
        pools[0].status == PoolStatus::Open,
        pools[0].members@.len() == 0,
        joined.len() <= pools[0].number_of_max_members as int,
        forall|i: int|
            0 <= i < joined.len() ==> #[trigger] join_step(pools[i], pools[i + 1], joined[i]),
    ensures
        forall|i: int|
            0 <= i <= joined.len() ==> (#[trigger] pools[i].members@) == joined.subrange(0, i),
        forall|i: int|
            0 <= i <= joined.len() ==> (#[trigger] pools[i].status) == (if i == pools[0].number_of_max_members as int {
                PoolStatus::Full
            } else {
                PoolStatus::Open
            }),
        forall|i: int|
            0 <= i <= joined.len() ==> (#[trigger] pools[i].vault) == i * pools[0].price_per_member as int,
        forall|i: int|
            0 <= i <= joined.len() ==> (#[trigger] pools[i].number_of_max_members)
                == pools[0].number_of_max_members,
        forall|i: int|
            0 <= i <= joined.len() ==> (#[trigger] pools[i].price_per_member)
                == pools[0].price_per_member,
    decreases joined.len(),
{
    if joined.len() > 0 {
        let n = joined.len() as int;
        let front_pools = pools.subrange(0, n);
        let front_joined = joined.subrange(0, n - 1);
        assert(forall|i: int|
            0 <= i < front_joined.len() ==> #[trigger] join_step(
                front_pools[i],
                front_pools[i + 1],
                front_joined[i],
            ));
        lemma_join_sequence(front_pools, front_joined);
        assert(join_step(pools[n - 1], pools[n], joined[n - 1]));
        assert(front_pools[n - 1] == pools[n - 1]);
        assert(front_pools[0] == pools[0]);
        assert(front_pools[n - 1].members@ == front_joined.subrange(0, n - 1));
        assert(front_joined.subrange(0, n - 1) =~= joined.subrange(0, n - 1));
        assert(front_pools[n - 1].vault == (n - 1) * front_pools[0].price_per_member as int);
        assert(front_pools[n - 1].status == (if n - 1 == pools[0].number_of_max_members as int {
            PoolStatus::Full
        } else {
            PoolStatus::Open
        }));
        assert forall|i: int| 0 <= i <= n implies (#[trigger] pools[i].members@) == joined.subrange(
            0,
            i,
        ) by {
            if i < n {
                assert(front_pools[i] == pools[i]);
                assert(front_pools[i].members@ == front_joined.subrange(0, i));
                assert(front_joined.subrange(0, i) =~= joined.subrange(0, i));
            } else {
                assert(pools[n - 1].members@ == joined.subrange(0, n - 1));
                assert(pools[n].members@ =~= joined.subrange(0, n));
            }
        }
        assert forall|i: int| 0 <= i <= n implies (#[trigger] pools[i].vault) == i * pools[0].price_per_member as int by {
            if i < n {
                assert(front_pools[i] == pools[i]);
                assert(front_pools[i].vault == i * front_pools[0].price_per_member as int);
            } else {
                vstd::arithmetic::mul::lemma_mul_is_distributive_add_other_way(
                    pools[0].price_per_member as int,
                    n - 1,
                    1,
                );
                assert(pools[n].vault == n * pools[0].price_per_member as int);
            }
        }
        assert forall|i: int| 0 <= i <= n implies (#[trigger] pools[i].status) == (if i == pools[0].number_of_max_members as int {
            PoolStatus::Full
        } else {
            PoolStatus::Open
        }) by {
            if i < n {
                assert(front_pools[i] == pools[i]);
                assert(front_pools[i].status == (if i == pools[0].number_of_max_members as int {
                    PoolStatus::Full
                } else {
                    PoolStatus::Open
                }));
            } else {
                assert(pools[n - 1].members@.len() == n - 1);
            }
        }
        assert forall|i: int| 0 <= i <= n implies (#[trigger] pools[i].number_of_max_members)
            == pools[0].number_of_max_members by {
            if i < n {
                assert(front_pools[i] == pools[i]);
                assert(front_pools[i].number_of_max_members == pools[0].number_of_max_members);
            } else {
                assert(front_pools[n - 1].number_of_max_members
                    == pools[0].number_of_max_members);
            }
        }
        assert forall|i: int| 0 <= i <= n implies (#[trigger] pools[i].price_per_member)
            == pools[0].price_per_member by {
            if i < n {
                assert(front_pools[i] == pools[i]);
                assert(front_pools[i].price_per_member == pools[0].price_per_member);
            } else {
                assert(front_pools[n - 1].price_per_member == pools[0].price_per_member);
            }
        }
    }
}

/// Fair division is exact up to the unavoidable rounding: the shares of a
/// full pool cover the price except for a remainder smaller than the
/// capacity.
pub proof fn lemma_price_division_accuracy(pool: Pool)
    requires
        pool.well_formed(),
    ensures
        pool.price_per_member as int * pool.number_of_max_members as int <= pool.price as int,
        pool.price as int - (pool.price_per_member as int * pool.number_of_max_members as int)
            < pool.number_of_max_members as int,
{
    let price = pool.price as int;
    let max = pool.number_of_max_members as int;
    vstd::arithmetic::div_mod::lemma_fundamental_div_mod(price, max);
    vstd::arithmetic::div_mod::lemma_mod_bound(price, max);
}

/// Custody accounting: while the mirrored balance and the custody record
/// agree, the custody record holds exactly one share per joined member.
pub proof fn lemma_vault_balance(pool: Pool, vault: PoolVault)
    requires
        pool.well_formed(),
        synced(pool, vault),
    ensures
        vault.amount == pool.members@.len() * pool.price_per_member as int,
{
}

} // verus!
