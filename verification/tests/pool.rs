use gafi_pallets::pallets::pool::{
    DefaultMarkTime, DefaultTimeService, Error, Event, GenesisConfig, Pallet, PoolServices,
};
use gafi_pallets::primitives::cache::Cache;
use gafi_pallets::primitives::custom_services::{CustomPool, CustomService};
use gafi_pallets::primitives::pool::{PoolType, Service};
use gafi_pallets::primitives::system_services::{SystemPool, SystemService};
use gafi_pallets::primitives::ticket::{Ticket, TicketInfo, TicketType};
use gafi_pallets::support::{AccountId, DispatchError, DispatchResult, Origin, H160};

type ID = [u8; 32];

const ALICE: AccountId = [1u8; 32];
const BOB: AccountId = [2u8; 32];
const UPFRONT: ID = [10u8; 32];
const STAKING: ID = [11u8; 32];
const SPONSORED: ID = [12u8; 32];
const SPONSORED2: ID = [13u8; 32];
const UNKNOWN: ID = [99u8; 32];

#[derive(Clone)]
struct Sys {
    services: Vec<(ID, SystemService)>,
    join_ok: bool,
    leave_ok: bool,
    joined: Vec<(AccountId, ID)>,
    left: Vec<AccountId>,
}

impl Sys {
    fn with(pool: ID, tx_limit: u32) -> Self {
        Sys {
            services: vec![(pool, SystemService::new(pool, tx_limit, 0, 0))],
            join_ok: true,
            leave_ok: true,
            joined: vec![],
            left: vec![],
        }
    }
    fn none() -> Self {
        Sys { services: vec![], join_ok: true, leave_ok: false, joined: vec![], left: vec![] }
    }
}

impl SystemPool<AccountId, AccountId> for Sys {
    fn spec_join(&self, sender: AccountId, pool_id: ID) -> (Self, DispatchResult) {
        let mut next = self.clone();
        let r = next.join(sender, pool_id);
        (next, r)
    }
    fn spec_leave(&self, sender: AccountId) -> (Self, DispatchResult) {
        let mut next = self.clone();
        let r = next.leave(sender);
        (next, r)
    }
    fn spec_service(&self, pool_id: ID) -> Option<SystemService> {
        self.get_service(pool_id)
    }
    fn join(&mut self, sender: AccountId, pool_id: ID) -> DispatchResult {
        self.joined.push((sender, pool_id));
        if self.join_ok { Ok(()) } else { Err(DispatchError::Other("full")) }
    }
    fn leave(&mut self, sender: AccountId) -> DispatchResult {
        self.left.push(sender);
        if self.leave_ok { Ok(()) } else { Err(DispatchError::Other("not here")) }
    }
    fn get_service(&self, pool_id: ID) -> Option<SystemService> {
        self.services.iter().find(|s| s.0 == pool_id).map(|s| s.1)
    }
    fn get_ticket(&self, _sender: AccountId) -> Option<Ticket<AccountId>> {
        None
    }
}

#[derive(Clone)]
struct Custom {
    services: Vec<(ID, CustomService<AccountId>)>,
    join_ok: bool,
    leave_ok: bool,
}

impl Custom {
    fn with(pools: &[(ID, u32, Vec<H160>)]) -> Self {
        Custom {
            services: pools
                .iter()
                .map(|(id, limit, targets)| {
                    (*id, CustomService { targets: targets.clone(), service: Service { tx_limit: *limit, discount: 0 }, sponsor: BOB })
                })
                .collect(),
            join_ok: true,
            leave_ok: true,
        }
    }
}

impl CustomPool<AccountId> for Custom {
    fn spec_join(&self, sender: AccountId, pool_id: ID) -> (Self, DispatchResult) {
        let mut next = self.clone();
        let r = next.join(sender, pool_id);
        (next, r)
    }
    fn spec_leave(&self, sender: AccountId) -> (Self, DispatchResult) {
        let mut next = self.clone();
        let r = next.leave(sender);
        (next, r)
    }
    fn spec_service(&self, pool_id: ID) -> Option<CustomService<AccountId>> {
        self.get_service(pool_id)
    }
    fn spec_pool_owner(&self, pool_id: ID) -> Option<AccountId> {
        self.get_pool_owner(pool_id)
    }
    fn spec_is_pool(&self, pool_id: ID) -> bool {
        self.is_pool(pool_id)
    }
    fn join(&mut self, _sender: AccountId, _pool_id: ID) -> DispatchResult {
        if self.join_ok { Ok(()) } else { Err(DispatchError::Other("closed")) }
    }
    fn leave(&mut self, _sender: AccountId) -> DispatchResult {
        if self.leave_ok { Ok(()) } else { Err(DispatchError::Other("not here")) }
    }
    fn get_service(&self, pool_id: ID) -> Option<CustomService<AccountId>> {
        self.services.iter().find(|s| s.0 == pool_id).map(|s| s.1.clone())
    }
    fn get_pool_owner(&self, pool_id: ID) -> Option<AccountId> {
        self.services.iter().find(|s| s.0 == pool_id).map(|s| s.1.sponsor)
    }
    fn is_pool(&self, pool_id: ID) -> bool {
        self.services.iter().any(|s| s.0 == pool_id)
    }
}

#[derive(Default)]
struct MapCache {
    entries: Vec<(AccountId, ID, TicketInfo)>,
}

impl Cache<AccountId, ID, TicketInfo> for MapCache {
    fn spec_get(&self, id: AccountId, action: ID) -> Option<TicketInfo> {
        self.get(id, action)
    }
    fn insert(&mut self, id: AccountId, action: ID, data: TicketInfo) {
        self.entries.retain(|e| !(e.0 == id && e.1 == action));
        self.entries.push((id, action, data));
    }
    fn get(&self, id: AccountId, action: ID) -> Option<TicketInfo> {
        self.entries.iter().find(|e| e.0 == id && e.1 == action).map(|e| e.2)
    }
}

struct World {
    upfront: Sys,
    staking: Sys,
    sponsored: Custom,
    cache: MapCache,
}

fn world() -> World {
    World {
        upfront: Sys::with(UPFRONT, 100),
        staking: Sys::with(STAKING, 50),
        sponsored: Custom::with(&[(SPONSORED, 10, vec![[7u8; 20]]), (SPONSORED2, 20, vec![[8u8; 20]])]),
        cache: MapCache::default(),
    }
}

fn hub(max_joined: u32) -> Pallet {
    GenesisConfig {}.build(3_600_000, 1_000, max_joined)
}

fn join(p: &mut Pallet, w: &mut World, who: AccountId, pool: ID) -> DispatchResult {
    p.join(Origin::Signed(who), pool, &mut w.upfront, &mut w.staking, &mut w.sponsored, &w.cache)
}

fn leave(p: &mut Pallet, w: &mut World, who: AccountId, pool: ID) -> DispatchResult {
    p.leave(Origin::Signed(who), pool, &mut w.upfront, &mut w.staking, &mut w.sponsored, &mut w.cache)
}

#[test]
fn defaults() {
    assert_eq!(DefaultTimeService(), 3_600_000);
    assert_eq!(DefaultMarkTime(1_234), 1_234);
}

#[test]
fn genesis_build() {
    let p = hub(2);
    assert_eq!(p.time_service(), 3_600_000);
    assert_eq!(p.mark_time(), 1_000);
    assert_eq!(p.ticket_count(), 0);
    assert!(p.events().is_empty());
}

#[test]
fn on_finalize_moves_mark_after_a_period() {
    let mut p = hub(2);
    p.on_finalize(1_000 + 3_599_999);
    assert_eq!(p.mark_time(), 1_000);
    p.on_finalize(1_000 + 3_600_000);
    assert_eq!(p.mark_time(), 3_601_000);
}

#[test]
fn join_upfront_pool_issues_ticket() {
    let mut p = hub(2);
    let mut w = world();
    assert_eq!(join(&mut p, &mut w, ALICE, UPFRONT), Ok(()));
    assert_eq!(p.tickets(ALICE, UPFRONT), Some(TicketInfo { ticket_type: TicketType::Upfront(UPFRONT), tickets: 100 }));
    assert_eq!(p.events(), &vec![Event::Joined { sender: ALICE, pool_id: UPFRONT }]);
    assert_eq!(w.upfront.joined, vec![(ALICE, UPFRONT)]);
    assert!(p.is_joined_pool(ALICE, UPFRONT));
    assert!(p.is_joined_pool(ALICE, STAKING));
    assert!(!p.is_joined_pool(BOB, UPFRONT));
}

#[test]
fn join_twice_is_refused() {
    let mut p = hub(2);
    let mut w = world();
    assert_eq!(join(&mut p, &mut w, ALICE, STAKING), Ok(()));
    assert_eq!(join(&mut p, &mut w, ALICE, STAKING), Err(DispatchError::Pool(Error::AlreadyJoined)));
    assert_eq!(join(&mut p, &mut w, ALICE, UPFRONT), Err(DispatchError::Pool(Error::AlreadyJoined)));
    assert_eq!(p.ticket_count(), 1);
    assert_eq!(w.staking.joined, vec![(ALICE, STAKING)]);
    assert!(w.upfront.joined.is_empty());
}

#[test]
fn join_asks_only_the_pool_of_the_kind() {
    let mut p = hub(2);
    let mut w = world();
    assert_eq!(join(&mut p, &mut w, ALICE, STAKING), Ok(()));
    assert!(w.upfront.joined.is_empty());
    assert_eq!(w.staking.joined, vec![(ALICE, STAKING)]);
    assert_eq!(join(&mut p, &mut w, BOB, UPFRONT), Ok(()));
    assert_eq!(w.upfront.joined, vec![(BOB, UPFRONT)]);
    assert_eq!(w.staking.joined, vec![(ALICE, STAKING)]);
}

#[test]
fn at_most_one_upfront_or_staking_ticket() {
    let mut p = hub(2);
    let mut w = world();
    join(&mut p, &mut w, ALICE, UPFRONT).unwrap();
    assert_eq!(join(&mut p, &mut w, ALICE, STAKING), Err(DispatchError::Pool(Error::AlreadyJoined)));
    assert_eq!(join(&mut p, &mut w, ALICE, SPONSORED), Err(DispatchError::Pool(Error::AlreadyJoined)));
    assert_eq!(p.tickets(ALICE, STAKING), None);
    assert_eq!(p.ticket_count(), 1);
}

#[test]
fn join_unknown_pool() {
    let mut p = hub(2);
    let mut w = world();
    assert_eq!(join(&mut p, &mut w, ALICE, UNKNOWN), Err(DispatchError::Pool(Error::PoolNotFound)));
    assert_eq!(p.ticket_count(), 0);
    assert!(p.events().is_empty());
}

#[test]
fn join_needs_signed_origin() {
    let mut p = hub(2);
    let mut w = world();
    let r = p.join(Origin::Root, UPFRONT, &mut w.upfront, &mut w.staking, &mut w.sponsored, &w.cache);
    assert_eq!(r, Err(DispatchError::BadOrigin));
}

#[test]
fn refused_pool_join_still_succeeds_without_ticket() {
    let mut p = hub(2);
    let mut w = world();
    w.upfront.join_ok = false;
    assert_eq!(join(&mut p, &mut w, ALICE, UPFRONT), Ok(()));
    assert_eq!(p.tickets(ALICE, UPFRONT), None);
    assert!(p.events().is_empty());
}

#[test]
fn sponsored_pools_can_be_joined_side_by_side() {
    let mut p = hub(2);
    let mut w = world();
    assert_eq!(join(&mut p, &mut w, ALICE, SPONSORED), Ok(()));
    assert!(!p.is_joined_pool(ALICE, SPONSORED2));
    assert_eq!(join(&mut p, &mut w, ALICE, SPONSORED2), Ok(()));
    assert_eq!(p.tickets(ALICE, SPONSORED2), Some(TicketInfo { ticket_type: TicketType::Sponsored(SPONSORED2), tickets: 20 }));
}

#[test]
fn too_many_sponsored_pools() {
    let mut p = hub(0);
    let mut w = world();
    assert_eq!(join(&mut p, &mut w, ALICE, SPONSORED), Ok(()));
    assert_eq!(join(&mut p, &mut w, ALICE, SPONSORED2), Err(DispatchError::Pool(Error::ExceedJoinedPool)));
}

#[test]
fn leave_caches_and_removes_ticket() {
    let mut p = hub(2);
    let mut w = world();
    join(&mut p, &mut w, ALICE, UPFRONT).unwrap();
    assert_eq!(leave(&mut p, &mut w, ALICE, UPFRONT), Ok(()));
    assert_eq!(w.upfront.left, vec![ALICE]);
    assert!(w.staking.left.is_empty());
    assert_eq!(p.tickets(ALICE, UPFRONT), None);
    assert_eq!(w.cache.get(ALICE, UPFRONT), Some(TicketInfo { ticket_type: TicketType::Upfront(UPFRONT), tickets: 100 }));
    assert_eq!(p.events().last(), Some(&Event::Leaved { sender: ALICE, ticket: TicketType::Upfront(UPFRONT) }));
    assert!(!p.is_joined_pool(ALICE, UPFRONT));
}

#[test]
fn rejoin_takes_count_from_cache() {
    let mut p = hub(2);
    let mut w = world();
    join(&mut p, &mut w, ALICE, UPFRONT).unwrap();
    p.use_ticket(ALICE, None, &w.sponsored).unwrap();
    leave(&mut p, &mut w, ALICE, UPFRONT).unwrap();
    join(&mut p, &mut w, ALICE, UPFRONT).unwrap();
    assert_eq!(p.tickets(ALICE, UPFRONT).unwrap().tickets, 99);
}

#[test]
fn leave_without_ticket() {
    let mut p = hub(2);
    let mut w = world();
    assert_eq!(leave(&mut p, &mut w, ALICE, UPFRONT), Err(DispatchError::Pool(Error::NotFoundInPool)));
    assert!(w.upfront.left.is_empty());
    assert!(w.staking.left.is_empty());
    assert_eq!(w.cache.get(ALICE, UPFRONT), None);
    assert!(p.events().is_empty());
}

#[test]
fn leave_refused_by_pool_keeps_ticket() {
    let mut p = hub(2);
    let mut w = world();
    join(&mut p, &mut w, ALICE, UPFRONT).unwrap();
    w.upfront.leave_ok = false;
    assert_eq!(leave(&mut p, &mut w, ALICE, UPFRONT), Err(DispatchError::Other("not here")));
    assert!(p.tickets(ALICE, UPFRONT).is_some());
    assert_eq!(w.cache.get(ALICE, UPFRONT), None);
}

#[test]
fn leave_all_clears_the_players_tickets() {
    let mut p = hub(10);
    let mut w = world();
    join(&mut p, &mut w, ALICE, SPONSORED).unwrap();
    join(&mut p, &mut w, BOB, SPONSORED).unwrap();
    join(&mut p, &mut w, ALICE, SPONSORED2).unwrap();
    w.upfront = Sys::none();
    w.staking = Sys::none();
    assert_eq!(p.leave_all(Origin::Signed(ALICE), &mut w.upfront, &mut w.staking, &mut w.sponsored), Ok(()));
    assert_eq!(p.tickets(ALICE, SPONSORED), None);
    assert_eq!(p.tickets(ALICE, SPONSORED2), None);
    assert!(p.tickets(BOB, SPONSORED).is_some());
    assert_eq!(p.events().last(), Some(&Event::LeavedAll { sender: ALICE, pool_type: PoolType::Sponsored }));
}

#[test]
fn leave_all_clears_at_most_six() {
    let mut p = hub(20);
    let mut w = world();
    let mut pools = vec![];
    for k in 0..8u8 {
        let id = [100 + k; 32];
        pools.push((id, 5u32, vec![]));
    }
    w.sponsored = Custom::with(&pools);
    for (id, _, _) in &pools {
        join(&mut p, &mut w, ALICE, *id).unwrap();
    }
    assert_eq!(p.ticket_count(), 8);
    p.leave_all(Origin::Signed(ALICE), &mut w.upfront, &mut w.staking, &mut w.sponsored).unwrap();
    assert_eq!(p.ticket_count(), 2);
    assert!(p.tickets(ALICE, [106u8; 32]).is_some());
    assert!(p.tickets(ALICE, [107u8; 32]).is_some());
    assert!(p.tickets(ALICE, [105u8; 32]).is_none());
    assert_eq!(p.events().last(), Some(&Event::LeavedAll { sender: ALICE, pool_type: PoolType::Upfront }));
    assert_eq!(w.upfront.left, vec![ALICE]);
    assert!(w.staking.left.is_empty());
}

#[test]
fn leave_all_when_no_pool_lets_go() {
    let mut p = hub(2);
    let mut w = world();
    join(&mut p, &mut w, ALICE, UPFRONT).unwrap();
    w.upfront.leave_ok = false;
    w.staking.leave_ok = false;
    w.sponsored.leave_ok = false;
    let before = p.events().len();
    p.leave_all(Origin::Signed(ALICE), &mut w.upfront, &mut w.staking, &mut w.sponsored).unwrap();
    assert_eq!(w.upfront.left, vec![ALICE]);
    assert_eq!(w.staking.left, vec![ALICE]);
    assert_eq!(p.events().len(), before);
    assert_eq!(p.ticket_count(), 0);
}

#[test]
fn use_ticket_spends_upfront_ticket() {
    let mut p = hub(2);
    let mut w = world();
    join(&mut p, &mut w, ALICE, UPFRONT).unwrap();
    assert_eq!(p.use_ticket(ALICE, None, &w.sponsored), Some((TicketType::Upfront(UPFRONT), UPFRONT)));
    assert_eq!(p.tickets(ALICE, UPFRONT).unwrap().tickets, 99);
    assert_eq!(p.use_ticket(BOB, None, &w.sponsored), None);
}

#[test]
fn use_ticket_sponsored_needs_listed_target() {
    let mut p = hub(2);
    let mut w = world();
    join(&mut p, &mut w, ALICE, SPONSORED).unwrap();
    assert_eq!(p.use_ticket(ALICE, None, &w.sponsored), None);
    assert_eq!(p.use_ticket(ALICE, Some([8u8; 20]), &w.sponsored), None);
    assert_eq!(p.tickets(ALICE, SPONSORED).unwrap().tickets, 10);
    assert_eq!(p.use_ticket(ALICE, Some([7u8; 20]), &w.sponsored), Some((TicketType::Sponsored(SPONSORED), SPONSORED)));
    assert_eq!(p.tickets(ALICE, SPONSORED).unwrap().tickets, 9);
}

#[test]
fn use_ticket_stops_at_zero() {
    let mut p = hub(2);
    let mut w = world();
    w.staking = Sys::with(STAKING, 1);
    join(&mut p, &mut w, ALICE, STAKING).unwrap();
    assert!(p.use_ticket(ALICE, None, &w.sponsored).is_some());
    assert_eq!(p.use_ticket(ALICE, None, &w.sponsored), None);
    assert_eq!(p.tickets(ALICE, STAKING).unwrap().tickets, 0);
}

#[test]
fn use_ticket_with_targets_takes_first_usable() {
    let mut p = hub(2);
    let mut w = world();
    join(&mut p, &mut w, ALICE, SPONSORED).unwrap();
    join(&mut p, &mut w, ALICE, SPONSORED2).unwrap();
    let targets = vec![vec![[1u8; 20]], vec![[3u8; 20]]];
    assert_eq!(
        p.use_ticket_with_targets(ALICE, Some([3u8; 20]), &targets),
        Some((TicketType::Sponsored(SPONSORED2), SPONSORED2))
    );
    assert_eq!(p.tickets(ALICE, SPONSORED2).unwrap().tickets, 19);
    assert_eq!(p.tickets(ALICE, SPONSORED).unwrap().tickets, 10);
}

#[test]
fn renew_tickets_restores_limits() {
    let mut p = hub(2);
    let mut w = world();
    join(&mut p, &mut w, ALICE, UPFRONT).unwrap();
    join(&mut p, &mut w, BOB, STAKING).unwrap();
    p.use_ticket(ALICE, None, &w.sponsored);
    p.use_ticket(BOB, None, &w.sponsored);
    w.staking.services.clear();
    p.renew_tickets(&w.upfront, &w.staking, &w.sponsored);
    assert!(p.is_joined_pool(ALICE, UPFRONT));
    assert!(p.is_joined_pool(BOB, STAKING));
    assert!(!p.is_joined_pool([3u8; 32], UPFRONT));
    assert_eq!(p.tickets(ALICE, UPFRONT).unwrap().tickets, 100);
    assert_eq!(p.tickets(BOB, STAKING).unwrap().tickets, 49);
}

#[test]
fn renew_with_services() {
    let mut p = hub(2);
    let mut w = world();
    join(&mut p, &mut w, ALICE, UPFRONT).unwrap();
    p.renew_tickets_with_services(&vec![Some(Service { tx_limit: 7, discount: 0 })]);
    assert_eq!(p.tickets(ALICE, UPFRONT), Some(TicketInfo { ticket_type: TicketType::Upfront(UPFRONT), tickets: 7 }));
}

fn services(up: bool, st: bool, sp: bool) -> PoolServices {
    PoolServices {
        upfront: if up { Some(SystemService::new(UPFRONT, 1, 0, 0)) } else { None },
        staking: if st { Some(SystemService::new(STAKING, 2, 0, 0)) } else { None },
        sponsored: if sp {
            Some(CustomService { targets: vec![[9u8; 20]], service: Service { tx_limit: 3, discount: 0 }, sponsor: BOB })
        } else {
            None
        },
    }
}

#[test]
fn ticket_type_prefers_upfront_then_staking() {
    assert_eq!(Pallet::get_ticket_type(UNKNOWN, &services(true, true, true)), Ok(TicketType::Upfront(UNKNOWN)));
    assert_eq!(Pallet::get_ticket_type(UNKNOWN, &services(false, true, true)), Ok(TicketType::Staking(UNKNOWN)));
    assert_eq!(Pallet::get_ticket_type(UNKNOWN, &services(false, false, true)), Ok(TicketType::Sponsored(UNKNOWN)));
    assert_eq!(Pallet::get_ticket_type(UNKNOWN, &services(false, false, false)), Err(Error::PoolNotFound));
}

#[test]
fn service_lookups() {
    assert_eq!(Pallet::get_service(&services(false, true, true)), Some(Service { tx_limit: 2, discount: 0 }));
    assert_eq!(Pallet::get_service(&services(false, false, false)), None);
    assert_eq!(
        Pallet::get_ticket_service(TicketType::Sponsored(UNKNOWN), &services(true, true, true)),
        Ok(Service { tx_limit: 3, discount: 0 })
    );
    assert_eq!(
        Pallet::get_ticket_service(TicketType::Staking(UNKNOWN), &services(true, false, true)),
        Err(Error::PoolNotFound)
    );
    assert_eq!(Pallet::get_targets(&services(false, false, true).sponsored), vec![[9u8; 20]]);
    assert!(Pallet::get_targets(&None).is_empty());
}

#[test]
fn create_ticket_from_cache_or_service() {
    let cached = Some(TicketInfo { ticket_type: TicketType::Staking(STAKING), tickets: 4 });
    assert_eq!(
        Pallet::create_ticket(UPFRONT, &services(true, false, false), cached),
        Ok(TicketInfo { ticket_type: TicketType::Upfront(UPFRONT), tickets: 4 })
    );
    assert_eq!(
        Pallet::create_ticket(UPFRONT, &services(true, false, false), None),
        Ok(TicketInfo { ticket_type: TicketType::Upfront(UPFRONT), tickets: 1 })
    );
    assert_eq!(Pallet::create_ticket(UPFRONT, &services(false, false, false), cached), Err(Error::PoolNotFound));
}

#[test]
fn store_ticket_reports_error_by_name() {
    let mut p = hub(2);
    assert_eq!(p.store_ticket(ALICE, UPFRONT, Err(Error::PoolNotFound)), Err("PoolNotFound"));
    assert_eq!(p.ticket_count(), 0);
    let t = TicketInfo { ticket_type: TicketType::Upfront(UPFRONT), tickets: 2 };
    assert_eq!(p.store_ticket(ALICE, UPFRONT, Ok(t)), Ok(()));
    assert_eq!(p.tickets(ALICE, UPFRONT), Some(t));
    assert_eq!(Error::ExceedJoinedPool.as_str(), "ExceedJoinedPool");
}

#[test]
fn join_pool_through_whitelist() {
    let mut p = hub(2);
    let w = world();
    assert_eq!(p.join_pool(ALICE, SPONSORED, &w.upfront, &w.staking, &w.sponsored, &w.cache), Ok(()));
    assert_eq!(p.tickets(ALICE, SPONSORED).unwrap().tickets, 10);
    assert_eq!(p.join_pool(ALICE, UNKNOWN, &w.upfront, &w.staking, &w.sponsored, &w.cache), Err("PoolNotFound"));
}

#[test]
fn join_check_and_complete() {
    let mut p = hub(2);
    assert_eq!(p.join_check(ALICE, UPFRONT, Ok(TicketType::Upfront(UPFRONT))), Ok(TicketType::Upfront(UPFRONT)));
    assert_eq!(p.join_check(ALICE, UPFRONT, Err(Error::PoolNotFound)), Err(DispatchError::Pool(Error::PoolNotFound)));
    let t = TicketInfo { ticket_type: TicketType::Upfront(UPFRONT), tickets: 5 };
    assert_eq!(p.join_complete(ALICE, UPFRONT, Err(DispatchError::Other("x")), Ok(t)), Ok(()));
    assert_eq!(p.ticket_count(), 0);
    assert_eq!(p.join_complete(ALICE, UPFRONT, Ok(()), Ok(t)), Ok(()));
    assert_eq!(p.tickets(ALICE, UPFRONT), Some(t));
    assert_eq!(p.join_check(ALICE, UPFRONT, Ok(TicketType::Upfront(UPFRONT))), Err(DispatchError::Pool(Error::AlreadyJoined)));
}
