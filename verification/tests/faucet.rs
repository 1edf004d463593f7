use gafi_pallets::pallets::faucet::{Error, Event, GenesisConfig, Pallet};
use gafi_pallets::primitives::cache::Cache;
use gafi_pallets::primitives::currency::Currency;
use gafi_pallets::support::{AccountId, CurrencyOp, DispatchError, DispatchResult, Origin};

const G1: AccountId = [1u8; 32];
const G2: AccountId = [2u8; 32];
const G3: AccountId = [3u8; 32];
const ALICE: AccountId = [9u8; 32];

#[derive(Default)]
struct Claims {
    entries: Vec<(AccountId, AccountId, u128)>,
}

impl Cache<AccountId, AccountId, u128> for Claims {
    fn spec_get(&self, id: AccountId, action: AccountId) -> Option<u128> {
        self.get(id, action)
    }
    fn insert(&mut self, id: AccountId, action: AccountId, data: u128) {
        self.entries.push((id, action, data));
    }
    fn get(&self, id: AccountId, action: AccountId) -> Option<u128> {
        self.entries.iter().rev().find(|e| e.0 == id && e.1 == action).map(|e| e.2)
    }
}

#[derive(Clone, Default)]
struct Ledger {
    balances: Vec<(AccountId, u128)>,
    refusing: Vec<AccountId>,
    transfers: Vec<(AccountId, AccountId, u128)>,
}

impl Ledger {
    fn funded(accounts: &[AccountId], amount: u128) -> Self {
        Ledger { balances: accounts.iter().map(|a| (*a, amount)).collect(), ..Ledger::default() }
    }
    fn balance(&self, who: &AccountId) -> u128 {
        self.balances.iter().find(|b| b.0 == *who).map(|b| b.1).unwrap_or(0)
    }
    fn set(&mut self, who: &AccountId, amount: u128) {
        self.balances.retain(|b| b.0 != *who);
        self.balances.push((*who, amount));
    }
}

impl Currency<AccountId> for Ledger {
    fn spec_free_balance(&self, who: AccountId) -> u128 {
        self.balance(&who)
    }
    fn spec_transfer(&self, source: AccountId, dest: AccountId, value: u128) -> (Self, DispatchResult) {
        let mut next = self.clone();
        let r = next.transfer(&source, &dest, value);
        (next, r)
    }
    fn free_balance(&self, who: &AccountId) -> u128 {
        self.balance(who)
    }
    fn transfer(&mut self, source: &AccountId, dest: &AccountId, value: u128) -> DispatchResult {
        if self.refusing.contains(source) || self.balance(source) < value {
            return Err(DispatchError::Other("refused"));
        }
        let from = self.balance(source) - value;
        self.set(source, from);
        let to = self.balance(dest) + value;
        self.set(dest, to);
        self.transfers.push((*source, *dest, value));
        Ok(())
    }
}

fn faucet(max: u32) -> Pallet {
    GenesisConfig { genesis_accounts: vec![G1, G2, G3], faucet_amount: 1_000 }.build(max)
}

#[test]
fn genesis_keeps_bounded_accounts() {
    assert_eq!(faucet(5).genesis_account(), &vec![G1, G2, G3]);
    assert_eq!(faucet(2).genesis_account(), &vec![G1, G2]);
    assert_eq!(faucet(2).faucet_amount(), 1_000);
}

#[test]
fn faucet_admission() {
    let f = faucet(5);
    assert_eq!(f.faucet_check(Origin::Signed(ALICE), None, 99), Ok(ALICE));
    assert_eq!(f.faucet_check(Origin::Signed(ALICE), None, 100), Err(DispatchError::Faucet(Error::DontBeGreedy)));
    assert_eq!(f.faucet_check(Origin::Signed(ALICE), Some(1_000), 0), Err(DispatchError::Faucet(Error::PleaseWait)));
    assert_eq!(f.faucet_check(Origin::Root, None, 0), Err(DispatchError::BadOrigin));
}

#[test]
fn faucet_pays_from_the_first_account_that_can() {
    let f = faucet(5);
    let mut claims = Claims::default();
    let mut ledger = Ledger::funded(&[G1, G2, G3], 5_000);
    ledger.refusing.push(G1);
    assert_eq!(f.faucet(Origin::Signed(ALICE), &mut claims, &mut ledger), Ok(()));
    assert_eq!(ledger.transfers, vec![(G2, ALICE, 1_000)]);
    assert_eq!(ledger.free_balance(&ALICE), 1_000);
    assert_eq!(ledger.free_balance(&G2), 4_000);
    assert_eq!(Pallet::get_cache(&claims, ALICE), Some(1_000));
}

#[test]
fn faucet_runs_out() {
    let f = faucet(5);
    let mut claims = Claims::default();
    let mut ledger = Ledger::funded(&[G1, G2, G3], 500);
    assert_eq!(f.faucet(Origin::Signed(ALICE), &mut claims, &mut ledger), Err(DispatchError::Other("Out of Faucet")));
    assert!(ledger.transfers.is_empty());
    assert_eq!(Pallet::get_cache(&claims, ALICE), None);
    assert_eq!(Pallet::out_of_faucet(), DispatchError::Other("Out of Faucet"));
}

#[test]
fn faucet_refuses_before_any_transfer() {
    let f = faucet(5);
    let mut claims = Claims::default();
    let mut ledger = Ledger::funded(&[G1, G2, G3], 5_000);
    ledger.set(&ALICE, 100);
    assert_eq!(f.faucet(Origin::Signed(ALICE), &mut claims, &mut ledger), Err(DispatchError::Faucet(Error::DontBeGreedy)));
    assert_eq!(f.faucet(Origin::Root, &mut claims, &mut ledger), Err(DispatchError::BadOrigin));
    assert!(ledger.transfers.is_empty());
    assert_eq!(Pallet::get_cache(&claims, ALICE), None);
}

#[test]
fn served_player_waits() {
    let f = faucet(5);
    let mut claims = Claims::default();
    let mut ledger = Ledger::funded(&[G1, G2, G3], 5_000);
    assert_eq!(Pallet::get_cache(&claims, ALICE), None);
    assert_eq!(f.faucet(Origin::Signed(ALICE), &mut claims, &mut ledger), Ok(()));
    assert_eq!(Pallet::get_cache(&claims, ALICE), Some(1_000));
    ledger.set(&ALICE, 0);
    assert_eq!(f.faucet(Origin::Signed(ALICE), &mut claims, &mut ledger), Err(DispatchError::Faucet(Error::PleaseWait)));
    assert_eq!(ledger.transfers, vec![(G1, ALICE, 1_000)]);
}

#[test]
fn cache_reads_back_what_was_inserted() {
    let mut claims = Claims::default();
    assert_eq!(Pallet::insert_cache(&mut claims, ALICE, 7), Some(()));
    assert_eq!(Pallet::get_cache(&claims, ALICE), Some(7));
    assert_eq!(Pallet::get_cache(&claims, G1), None);
}

#[test]
fn donate_cases() {
    let mut f = faucet(5);
    assert_eq!(f.donate(Origin::Signed(ALICE), 10, 10), Err(DispatchError::Faucet(Error::NotEnoughBalance)));
    assert_eq!(f.donate(Origin::Signed(G1), 10, 11), Err(DispatchError::Faucet(Error::TransferToSelf)));
    assert_eq!(f.donate(Origin::Signed(ALICE), 10, 11), Ok(CurrencyOp::Transfer { from: ALICE, to: G1, amount: 10 }));
    assert_eq!(f.events(), &vec![Event::Transfered(ALICE, G1, 10)]);
}
