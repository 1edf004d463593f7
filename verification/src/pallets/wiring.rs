//! The pallets behind the interfaces other pallets call: the pool hub, with
//! the pools and the cache it is configured with, serves as a
//! `WhitelistPool` and a `PlayerTicket`; the whitelist pallet, with the
//! sponsored pool and the hub, serves as an `IWhiteList`.

use vstd::prelude::*;
use crate::pallets::pool::{
    self as pool, create_ticket_spec, first_hub_usable, hub_usable, join_pool_outcome, joined,
    query_services, service_spec, services_spec, targets_spec, Error, PoolState,
};
use crate::pallets::tickets::insert_entry;
use crate::pallets::whitelist::{self as whitelist, WhitelistState};
use crate::primitives::cache::Cache;
use crate::primitives::constant::ID;
use crate::primitives::custom_services::CustomPool;
use crate::primitives::pool::Service;
use crate::primitives::system_services::SystemPool;
use crate::primitives::ticket::{ticket_pool, PlayerTicket, TicketInfo, TicketType};
use crate::primitives::whitelist::{IWhiteList, WhitelistPool};
use crate::storage::kv_has;
use crate::support::{AccountId, H160};

verus! {

/// The pool hub together with the pools and the cache it is configured with.
pub struct PoolHub<'a, U, S, P, K> {
    pallet: pool::Pallet,
    upfront: &'a U,
    staking: &'a S,
    sponsored: &'a P,
    cache: &'a K,
}

impl<'a, U, S, P, K> PoolHub<'a, U, S, P, K> {
    #[verifier::type_invariant]
    spec fn inv(self) -> bool {
        self.pallet@.wf()
    }

    /// The hub's state.
    pub closed spec fn state(self) -> PoolState {
        self.pallet@
    }

    /// The upfront pool the hub is configured with.
    pub closed spec fn upfront_pool(self) -> U {
        *self.upfront
    }

    /// The staking pool the hub is configured with.
    pub closed spec fn staking_pool(self) -> S {
        *self.staking
    }

    /// The sponsored pool the hub is configured with.
    pub closed spec fn sponsored_pool(self) -> P {
        *self.sponsored
    }

    /// The cache the hub reads tickets back from.
    pub closed spec fn cache_of(self) -> K {
        *self.cache
    }

    /// The same pools and cache as `other`.
    pub open spec fn same_pools(self, other: Self) -> bool {
        &&& self.upfront_pool() == other.upfront_pool()
        &&& self.staking_pool() == other.staking_pool()
        &&& self.sponsored_pool() == other.sponsored_pool()
        &&& self.cache_of() == other.cache_of()
    }

    pub fn new(pallet: pool::Pallet, upfront: &'a U, staking: &'a S, sponsored: &'a P, cache: &'a K) -> (r:
        Self)
        requires
            pallet@.wf(),
        ensures
            r.state() == pallet@,
            r.upfront_pool() == *upfront,
            r.staking_pool() == *staking,
            r.sponsored_pool() == *sponsored,
            r.cache_of() == *cache,
    {
        PoolHub { pallet, upfront, staking, sponsored, cache }
    }

    /// The hub's pallet, handed back.
    pub fn into_pallet(self) -> (r: pool::Pallet)
        ensures
            r@ == self.state(),
            r@.wf(),
    {
        proof {
            use_type_invariant(&self);
        }
        self.pallet
    }
}

impl<
    'a,
    U: SystemPool<AccountId, AccountId>,
    S: SystemPool<AccountId, AccountId>,
    P: CustomPool<AccountId>,
    K: Cache<AccountId, ID, TicketInfo>,
> PoolHub<'a, U, S, P, K> {
    /// The ticket the hub makes for a player admitted to `pool_id`: from
    /// the services its pools report and the player's cached ticket.
    pub open spec fn hub_ticket(self, sender: AccountId, pool_id: ID) -> Result<TicketInfo, Error> {
        create_ticket_spec(
            pool_id,
            services_spec(pool_id, self.upfront_pool(), self.staking_pool(), self.sponsored_pool()),
            self.cache_of().spec_get(sender, pool_id),
        )
    }
}

impl<
    'a,
    U: SystemPool<AccountId, AccountId>,
    S: SystemPool<AccountId, AccountId>,
    P: CustomPool<AccountId>,
    K: Cache<AccountId, ID, TicketInfo>,
> WhitelistPool<AccountId> for PoolHub<'a, U, S, P, K> {
    closed spec fn spec_joined(&self, sender: AccountId, pool_id: ID) -> bool {
        joined(self.state().tickets, sender, pool_id)
    }

    closed spec fn spec_join_pool(&self, after: Self, sender: AccountId, pool_id: ID, r: Result<(), &'static str>) -> bool {
        &&& after.same_pools(*self)
        &&& join_pool_outcome(self.state(), after.state(), sender, pool_id, r, self.hub_ticket(sender, pool_id))
        &&& r is Err ==> r == Err::<(), &'static str>("PoolNotFound")
    }

    /// Makes and stores the ticket of a player admitted to a pool.
    fn join_pool(&mut self, sender: AccountId, pool_id: ID) -> (r: Result<(), &'static str>)
        ensures
            final(self).same_pools(*old(self)),
            join_pool_outcome(
                old(self).state(),
                final(self).state(),
                sender,
                pool_id,
                r,
                old(self).hub_ticket(sender, pool_id),
            ),
            r is Err ==> r == Err::<(), &'static str>("PoolNotFound"),
    {
        proof {
            use_type_invariant(&*self);
        }
        let mut pallet = pool::GenesisConfig {}.build(0, 0, 0);
        std::mem::swap(&mut pallet, &mut self.pallet);
        let r = pallet.join_pool(sender, pool_id, self.upfront, self.staking, self.sponsored, self.cache);
        std::mem::swap(&mut pallet, &mut self.pallet);
        r
    }

    /// Whether the player holds a ticket that keeps it out of the pool.
    fn is_joined_pool(&self, sender: AccountId, pool_id: ID) -> (r: bool)
        ensures
            r == joined(self.state().tickets, sender, pool_id),
    {
        self.pallet.is_joined_pool(sender, pool_id)
    }
}

impl<
    'a,
    U: SystemPool<AccountId, AccountId>,
    S: SystemPool<AccountId, AccountId>,
    P: CustomPool<AccountId>,
    K: Cache<AccountId, ID, TicketInfo>,
> PlayerTicket<AccountId> for PoolHub<'a, U, S, P, K> {
    /// Spends one transaction of the player's first usable ticket; a
    /// sponsored ticket is usable only for a target its pool pays for.
    fn use_ticket(&mut self, player: AccountId, target: Option<H160>) -> (r: Option<(TicketType, ID)>)
        ensures
            final(self).same_pools(*old(self)),
            match r {
                Some((tt, pid)) => exists|i: int|
                    #[trigger] first_hub_usable(
                        old(self).state().tickets,
                        player,
                        target,
                        old(self).sponsored_pool(),
                        i,
                    ) && old(self).state().tickets[i].value.ticket_type == tt && pid == ticket_pool(tt)
                        && final(self).state() == (PoolState {
                        tickets: insert_entry(
                            old(self).state().tickets,
                            player,
                            pid,
                            TicketInfo {
                                ticket_type: tt,
                                tickets: (old(self).state().tickets[i].value.tickets - 1) as u32,
                            },
                        ),
                        ..old(self).state()
                    }),
                None => final(self).state() == old(self).state() && forall|i: int|
                    0 <= i < old(self).state().tickets.len() ==> !hub_usable(
                        #[trigger] old(self).state().tickets[i],
                        player,
                        target,
                        old(self).sponsored_pool(),
                    ),
            },
    {
        proof {
            use_type_invariant(&*self);
        }
        let mut pallet = pool::GenesisConfig {}.build(0, 0, 0);
        std::mem::swap(&mut pallet, &mut self.pallet);
        let ghost before = pallet@;
        let r = pallet.use_ticket(player, target, self.sponsored);
        let ghost after = pallet@;
        std::mem::swap(&mut pallet, &mut self.pallet);
        proof {
            assert(self.state() == after);
            assert(old(self).state() == before);
            assert(old(self).sponsored_pool() == *self.sponsored);
            if r is Some {
                let (tt, pid) = r->Some_0;
                let i = choose|i: int|
                    #[trigger] first_hub_usable(before.tickets, player, target, *self.sponsored, i)
                        && before.tickets[i].value.ticket_type == tt && pid == ticket_pool(tt) && after == (
                    PoolState {
                        tickets: insert_entry(
                            before.tickets,
                            player,
                            pid,
                            TicketInfo { ticket_type: tt, tickets: (before.tickets[i].value.tickets - 1) as u32 },
                        ),
                        ..before
                    });
                assert(first_hub_usable(old(self).state().tickets, player, target, old(self).sponsored_pool(), i));
            }
        }
        r
    }

    /// The service offered under a pool id by the first configured pool.
    fn get_service(&self, pool_id: ID) -> (r: Option<Service>)
        ensures
            r == service_spec(
                services_spec(pool_id, self.upfront_pool(), self.staking_pool(), self.sponsored_pool()),
            ),
    {
        pool::Pallet::get_service(&query_services(pool_id, self.upfront, self.staking, self.sponsored))
    }

    /// The contracts a sponsored pool pays for.
    fn get_targets(&self, pool_id: ID) -> (r: Vec<H160>)
        ensures
            r@ == targets_spec(self.sponsored_pool().spec_service(pool_id)),
    {
        pool::Pallet::get_targets(&self.sponsored.get_service(pool_id))
    }
}

/// The whitelist pallet together with the sponsored pool and the pool hub
/// it consults.
pub struct WhitelistRegistry<'a, P, W> {
    pallet: whitelist::Pallet,
    sponsored: &'a P,
    pool: &'a W,
}

impl<'a, P, W> WhitelistRegistry<'a, P, W> {
    #[verifier::type_invariant]
    spec fn inv(self) -> bool {
        self.pallet@.wf()
    }

    /// The registry's state.
    pub closed spec fn state(self) -> WhitelistState {
        self.pallet@
    }

    pub fn new(pallet: whitelist::Pallet, sponsored: &'a P, pool: &'a W) -> (r: Self)
        requires
            pallet@.wf(),
        ensures
            r.state() == pallet@,
            r.sponsored_pool() == *sponsored,
            r.pool_hub() == *pool,
    {
        WhitelistRegistry { pallet, sponsored, pool }
    }

    /// The sponsored pool the registry asks whether a pool exists.
    pub closed spec fn sponsored_pool(self) -> P {
        *self.sponsored
    }

    /// The pool hub the registry asks whether a player already joined.
    pub closed spec fn pool_hub(self) -> W {
        *self.pool
    }

    /// The registry's pallet, handed back.
    pub fn into_pallet(self) -> (r: whitelist::Pallet)
        ensures
            r@ == self.state(),
            r@.wf(),
    {
        proof {
            use_type_invariant(&self);
        }
        self.pallet
    }
}

impl<'a, P: CustomPool<AccountId>, W: WhitelistPool<AccountId>> IWhiteList<AccountId> for WhitelistRegistry<
    'a,
    P,
    W,
> {
    /// Whether a pool publishes a verdict source.
    fn is_whitelist(&self, pool_id: ID) -> (r: bool)
        ensures
            r == kv_has(self.state().sources, pool_id),
    {
        proof {
            use_type_invariant(self);
        }
        self.pallet.is_whitelist(pool_id)
    }

    /// Records a player's application, asking the sponsored pool whether
    /// the pool exists and the hub whether the player already joined it.
    fn insert_whitelist(&mut self, pool_id: ID, player: AccountId) -> (r: Result<(), &'static str>)
        ensures
            final(self).sponsored_pool() == old(self).sponsored_pool(),
            final(self).pool_hub() == old(self).pool_hub(),
            whitelist::insert_whitelist_outcome(
                old(self).state(),
                final(self).state(),
                pool_id,
                player,
                old(self).sponsored_pool().spec_is_pool(pool_id),
                old(self).pool_hub().spec_joined(player, pool_id),
                r,
            ),
    {
        proof {
            use_type_invariant(&*self);
        }
        let pool_exists = self.sponsored.is_pool(pool_id);
        let player_joined = self.pool.is_joined_pool(player, pool_id);
        let mut pallet = whitelist::Pallet::new(0, 0);
        std::mem::swap(&mut pallet, &mut self.pallet);
        let r = pallet.insert_whitelist(pool_id, player, pool_exists, player_joined);
        std::mem::swap(&mut pallet, &mut self.pallet);
        r
    }
}

} // verus!
