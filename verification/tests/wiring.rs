use gafi_pallets::pallets::pool::{GenesisConfig, Pallet as PoolPallet};
use gafi_pallets::pallets::whitelist::Pallet as WhitelistPallet;
use gafi_pallets::pallets::wiring::{PoolHub, WhitelistRegistry};
use gafi_pallets::primitives::cache::Cache;
use gafi_pallets::primitives::custom_services::{CustomPool, CustomService};
use gafi_pallets::primitives::pool::Service;
use gafi_pallets::primitives::ticket::{PlayerTicket, TicketInfo, TicketType};
use gafi_pallets::primitives::whitelist::{IWhiteList, WhitelistPool};
use gafi_pallets::support::{AccountId, DispatchResult, Origin};

type ID = [u8; 32];
const OWNER: AccountId = [1u8; 32];
const PLAYER: AccountId = [2u8; 32];
const POOL: ID = [10u8; 32];
const TARGET: [u8; 20] = [4u8; 20];

struct Sponsored;

impl CustomPool<AccountId> for Sponsored {
    fn spec_join(&self, sender: AccountId, pool_id: ID) -> (Self, DispatchResult) {
        let mut next = Sponsored;
        let r = next.join(sender, pool_id);
        (next, r)
    }
    fn spec_leave(&self, sender: AccountId) -> (Self, DispatchResult) {
        let mut next = Sponsored;
        let r = next.leave(sender);
        (next, r)
    }
    fn spec_service(&self, pool_id: ID) -> Option<CustomService<AccountId>> {
        self.get_service(pool_id)
    }
    fn spec_pool_owner(&self, pool_id: ID) -> Option<AccountId> {
        self.get_pool_owner(pool_id)
    }
    fn spec_is_pool(&self, pool_id: ID) -> bool {
        self.is_pool(pool_id)
    }
    fn join(&mut self, _sender: AccountId, _pool_id: ID) -> DispatchResult {
        Ok(())
    }
    fn leave(&mut self, _sender: AccountId) -> DispatchResult {
        Ok(())
    }
    fn get_service(&self, pool_id: ID) -> Option<CustomService<AccountId>> {
        if pool_id == POOL {
            Some(CustomService { targets: vec![TARGET], service: Service { tx_limit: 3, discount: 0 }, sponsor: OWNER })
        } else {
            None
        }
    }
    fn get_pool_owner(&self, pool_id: ID) -> Option<AccountId> {
        if pool_id == POOL { Some(OWNER) } else { None }
    }
    fn is_pool(&self, pool_id: ID) -> bool {
        pool_id == POOL
    }
}

#[derive(Default)]
struct MapCache {
    entries: Vec<(AccountId, ID, TicketInfo)>,
}

impl Cache<AccountId, ID, TicketInfo> for MapCache {
    fn spec_get(&self, id: AccountId, action: ID) -> Option<TicketInfo> {
        self.get(id, action)
    }
    fn insert(&mut self, id: AccountId, action: ID, data: TicketInfo) {
        self.entries.retain(|e| !(e.0 == id && e.1 == action));
        self.entries.push((id, action, data));
    }
    fn get(&self, id: AccountId, action: ID) -> Option<TicketInfo> {
        self.entries.iter().find(|e| e.0 == id && e.1 == action).map(|e| e.2)
    }
}

fn hub_pallet() -> PoolPallet {
    GenesisConfig {}.build(3_600_000, 0, 4)
}

#[test]
fn approval_admits_player_to_hub() {
    let sponsored = Sponsored;
    let cache = MapCache::default();
    let mut hub = PoolHub::new(hub_pallet(), &(), &(), &sponsored, &cache);
    let mut wl = WhitelistPallet::new(64, 10);
    wl.enable_whitelist(Origin::Signed(OWNER), POOL, b"https://v".to_vec()).unwrap();
    wl.insert_whitelist(POOL, PLAYER, true, false).unwrap();
    assert_eq!(wl.approve_whitelist(Origin::Signed(OWNER), PLAYER, POOL, &sponsored, &mut hub), Ok(()));
    assert!(hub.is_joined_pool(PLAYER, POOL));
    let pallet = hub.into_pallet();
    assert_eq!(pallet.tickets(PLAYER, POOL), Some(TicketInfo { ticket_type: TicketType::Sponsored(POOL), tickets: 3 }));
}

#[test]
fn hub_serves_player_tickets() {
    let sponsored = Sponsored;
    let cache = MapCache::default();
    let mut hub = PoolHub::new(hub_pallet(), &(), &(), &sponsored, &cache);
    assert_eq!(hub.join_pool(PLAYER, POOL), Ok(()));
    assert_eq!(hub.join_pool(PLAYER, [11u8; 32]), Err("PoolNotFound"));
    assert_eq!(PlayerTicket::get_service(&hub, POOL), Some(Service { tx_limit: 3, discount: 0 }));
    assert_eq!(PlayerTicket::get_targets(&hub, POOL), vec![TARGET]);
    assert_eq!(hub.use_ticket(PLAYER, Some(TARGET)), Some((TicketType::Sponsored(POOL), POOL)));
    assert_eq!(hub.use_ticket(PLAYER, Some([5u8; 20])), None);
    assert_eq!(hub.into_pallet().tickets(PLAYER, POOL).unwrap().tickets, 2);
}

#[test]
fn registry_takes_applications() {
    let sponsored = Sponsored;
    let cache = MapCache::default();
    let hub = PoolHub::new(hub_pallet(), &(), &(), &sponsored, &cache);
    let mut wl = WhitelistPallet::new(64, 10);
    wl.enable_whitelist(Origin::Signed(OWNER), POOL, b"https://v".to_vec()).unwrap();
    let mut reg = WhitelistRegistry::new(wl, &sponsored, &hub);
    assert!(reg.is_whitelist(POOL));
    assert!(!reg.is_whitelist([11u8; 32]));
    assert_eq!(reg.insert_whitelist([11u8; 32], PLAYER), Err("PoolNotFound"));
    assert_eq!(reg.insert_whitelist(POOL, PLAYER), Ok(()));
    assert_eq!(reg.insert_whitelist(POOL, PLAYER), Err("AlreadyWhitelist"));
    assert_eq!(reg.into_pallet().whitelist(PLAYER), Some(POOL));
}

#[test]
fn hub_takes_count_from_cache() {
    let sponsored = Sponsored;
    let mut cache = MapCache::default();
    cache.insert(PLAYER, POOL, TicketInfo { ticket_type: TicketType::Sponsored(POOL), tickets: 1 });
    let mut hub = PoolHub::new(hub_pallet(), &(), &(), &sponsored, &cache);
    assert_eq!(hub.join_pool(PLAYER, POOL), Ok(()));
    assert_eq!(hub.into_pallet().tickets(PLAYER, POOL), Some(TicketInfo { ticket_type: TicketType::Sponsored(POOL), tickets: 1 }));
}
