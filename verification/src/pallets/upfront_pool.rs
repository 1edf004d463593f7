//! The upfront pool: players pay up front for a service; the pallet keeps
//! its services, its players' tickets and a capped player count.

use vstd::prelude::*;
use crate::primitives::constant::ID;
use crate::primitives::system_services::SystemService;
use crate::primitives::ticket::{Ticket, TicketType};
use crate::storage::{
    kv_find, kv_insert, kv_insert_exec, kv_lookup, kv_unique, KeyEntry,
};
use crate::support::{ensure_signed, AccountId, Balance, CurrencyOp, DispatchError, DispatchResult, Origin};

verus! {

#[derive(Clone, Copy, Debug, PartialEq, Eq, Structural)]
pub enum Error {
    NoneValue,
    StorageOverflow,
    PlayerNotFound,
    PlayerCountOverflow,
    ExceedMaxPlayer,
    CanNotClearNewPlayers,
    IntoBalanceFail,
    PoolNotFound,
}

#[derive(Clone, Copy, Debug, PartialEq, Eq)]
pub enum Event {
    SomethingStored(u32, AccountId),
    ChargePoolService,
    UpfrontSetMaxPlayer { new_max_player: u32 },
    UpfrontSetServiceTXLimit { service: ID, tx_limit: u32 },
    UpfrontSetServiceDiscount { service: ID, discount: u32 },
}

/// The abstract state of the upfront pool.
pub struct UpfrontState {
    pub something: Option<u32>,
    pub max_player: u32,
    pub player_count: u32,
    pub tickets: Seq<KeyEntry<AccountId, Ticket<AccountId>>>,
    pub services: Seq<KeyEntry<ID, SystemService>>,
    pub new_players: Seq<AccountId>,
    pub ingame_players: Seq<AccountId>,
    pub max_player_storage: u32,
    pub events: Seq<Event>,
}

impl UpfrontState {
    pub open spec fn wf(self) -> bool {
        &&& kv_unique(self.tickets)
        &&& kv_unique(self.services)
        &&& self.new_players.len() <= self.max_player_storage
        &&& self.ingame_players.len() <= self.max_player_storage
    }
}

/// The upfront pool's storage and configuration.
pub struct Pallet {
    something: Option<u32>,
    max_player: u32,
    player_count: u32,
    tickets: Vec<KeyEntry<AccountId, Ticket<AccountId>>>,
    services: Vec<KeyEntry<ID, SystemService>>,
    new_players: Vec<AccountId>,
    ingame_players: Vec<AccountId>,
    max_player_storage: u32,
    events: Vec<Event>,
}

impl View for Pallet {
    type V = UpfrontState;

    closed spec fn view(&self) -> UpfrontState {
        UpfrontState {
            something: self.something,
            max_player: self.max_player,
            player_count: self.player_count,
            tickets: self.tickets@,
            services: self.services@,
            new_players: self.new_players@,
            ingame_players: self.ingame_players@,
            max_player_storage: self.max_player_storage,
            events: self.events@,
        }
    }
}

/// The services at genesis: the defaults stored in order, a later entry
/// under the same id replacing an earlier one.
pub open spec fn genesis_services(defaults: [(ID, SystemService); 3]) -> Seq<KeyEntry<ID, SystemService>> {
    kv_insert(
        kv_insert(kv_insert(Seq::empty(), defaults[0].0, defaults[0].1), defaults[1].0, defaults[1].1),
        defaults[2].0,
        defaults[2].1,
    )
}

/// The upfront pool a player holds a ticket of.
pub open spec fn pool_joined_spec(st: UpfrontState, player: AccountId) -> Option<ID> {
    match kv_lookup(st.tickets, player) {
        Some(t) => match t.ticket_type {
            TicketType::Upfront(pool_id) => Some(pool_id),
            _ => None,
        },
        None => None,
    }
}

pub struct GenesisConfig {}

impl Default for GenesisConfig {
    fn default() -> (r: Self)
        ensures
            r == (GenesisConfig {}),
    {
        GenesisConfig {}
    }
}

impl GenesisConfig {
    /// The pool at genesis: the player cap at the configured storage limit
    /// and the default services stored.
    pub fn build(&self, max_player_storage: u32, default_services: [(ID, SystemService); 3]) -> (r: Pallet)
        ensures
            r@.wf(),
            r@ == (UpfrontState {
                something: None,
                max_player: max_player_storage,
                player_count: 0,
                tickets: Seq::empty(),
                services: genesis_services(default_services),
                new_players: Seq::empty(),
                ingame_players: Seq::empty(),
                max_player_storage,
                events: Seq::empty(),
            }),
    {
        let mut r = Pallet {
            something: None,
            max_player: max_player_storage,
            player_count: 0,
            tickets: Vec::new(),
            services: Vec::new(),
            new_players: Vec::new(),
            ingame_players: Vec::new(),
            max_player_storage,
            events: Vec::new(),
        };
        assert(r.services@ =~= Seq::<KeyEntry<ID, SystemService>>::empty());
        assert(r.tickets@ =~= Seq::<KeyEntry<AccountId, Ticket<AccountId>>>::empty());
        assert(r.new_players@ =~= Seq::<AccountId>::empty());
        assert(r.ingame_players@ =~= Seq::<AccountId>::empty());
        kv_insert_exec(&mut r.services, default_services[0].0, default_services[0].1);
        kv_insert_exec(&mut r.services, default_services[1].0, default_services[1].1);
        kv_insert_exec(&mut r.services, default_services[2].0, default_services[2].1);
        r
    }
}

impl Pallet {
    pub fn something(&self) -> (r: Option<u32>)
        ensures
            r == self@.something,
    {
        self.something
    }

    pub fn max_player(&self) -> (r: u32)
        ensures
            r == self@.max_player,
    {
        self.max_player
    }

    pub fn player_count(&self) -> (r: u32)
        ensures
            r == self@.player_count,
    {
        self.player_count
    }

    /// The events deposited so far, oldest first.
    pub fn events(&self) -> (r: &Vec<Event>)
        ensures
            r@ == self@.events,
    {
        &self.events
    }

    /// Stores a player's ticket.
    pub fn insert_ticket(&mut self, player: AccountId, ticket: Ticket<AccountId>)
        requires
            old(self)@.wf(),
        ensures
            final(self)@.wf(),
            final(self)@ == (UpfrontState { tickets: kv_insert(old(self)@.tickets, player, ticket), ..old(self)@ }),
    {
        kv_insert_exec(&mut self.tickets, player, ticket);
    }

    /// Replaces the players in game; more than the storage limit is refused.
    pub fn set_ingame_players(&mut self, players: Vec<AccountId>) -> (r: Result<(), Error>)
        requires
            old(self)@.wf(),
        ensures
            final(self)@.wf(),
            players@.len() <= old(self)@.max_player_storage ==> r is Ok && final(self)@ == (
            UpfrontState { ingame_players: players@, ..old(self)@ }),
            players@.len() > old(self)@.max_player_storage ==> r == Err::<(), Error>(
                Error::StorageOverflow,
            ) && final(self)@ == old(self)@,
    {
        if players.len() > self.max_player_storage as usize {
            return Err(Error::StorageOverflow);
        }
        self.ingame_players = players;
        Ok(())
    }

    /// A signed caller stores a value, and `SomethingStored` is deposited.
    pub fn do_something(&mut self, origin: Origin, something: u32) -> (r: DispatchResult)
        requires
            old(self)@.wf(),
        ensures
            final(self)@.wf(),
            match origin {
                Origin::Signed(who) => r is Ok && final(self)@ == (UpfrontState {
                    something: Some(something),
                    events: old(self)@.events.push(Event::SomethingStored(something, who)),
                    ..old(self)@
                }),
                _ => r == Err::<(), DispatchError>(DispatchError::BadOrigin) && final(self)@ == old(
                    self,
                )@,
            },
    {
        let who = ensure_signed(origin)?;
        self.something = Some(something);
        self.events.push(Event::SomethingStored(something, who));
        Ok(())
    }

    /// A signed caller increments the stored value: an error when none is
    /// stored or when it would overflow.
    pub fn cause_error(&mut self, origin: Origin) -> (r: DispatchResult)
        requires
            old(self)@.wf(),
        ensures
            final(self)@.wf(),
            !(origin is Signed) ==> r == Err::<(), DispatchError>(DispatchError::BadOrigin)
                && final(self)@ == old(self)@,
            origin is Signed ==> match old(self)@.something {
                None => r == Err::<(), DispatchError>(DispatchError::Upfront(Error::NoneValue))
                    && final(self)@ == old(self)@,
                Some(v) => if v == u32::MAX {
                    r == Err::<(), DispatchError>(DispatchError::Upfront(Error::StorageOverflow))
                        && final(self)@ == old(self)@
                } else {
                    r is Ok && final(self)@ == (UpfrontState {
                        something: Some((v + 1) as u32),
                        ..old(self)@
                    })
                },
            },
    {
        let _who = ensure_signed(origin)?;
        match self.something {
            None => Err(DispatchError::Upfront(Error::NoneValue)),
            Some(old) => {
                let new = match old.checked_add(1) {
                    Some(n) => n,
                    None => return Err(DispatchError::Upfront(Error::StorageOverflow)),
                };
                self.something = Some(new);
                Ok(())
            },
        }
    }

    /// The service stored under a pool id.
    pub fn get_service(&self, pool_id: ID) -> (r: Option<SystemService>)
        requires
            self@.wf(),
        ensures
            r == kv_lookup(self@.services, pool_id),
    {
        match kv_find(&self.services, &pool_id) {
            Some(i) => Some(self.services[i].value),
            None => None,
        }
    }

    /// A player's ticket.
    pub fn get_ticket(&self, sender: AccountId) -> (r: Option<Ticket<AccountId>>)
        requires
            self@.wf(),
        ensures
            r == kv_lookup(self@.tickets, sender),
    {
        match kv_find(&self.tickets, &sender) {
            Some(i) => Some(self.tickets[i].value),
            None => None,
        }
    }

    /// Whether one more player fits: an error when the count would overflow
    /// or pass the cap. Nothing is stored.
    pub fn join(&self, _sender: AccountId, _pool_id: ID) -> (r: DispatchResult)
        ensures
            r == (if self@.player_count == u32::MAX {
                Err::<(), DispatchError>(DispatchError::Upfront(Error::PlayerCountOverflow))
            } else if self@.player_count + 1 > self@.max_player {
                Err::<(), DispatchError>(DispatchError::Upfront(Error::ExceedMaxPlayer))
            } else {
                Ok(())
            }),
    {
        let new_player_count = match self.player_count.checked_add(1) {
            Some(n) => n,
            None => return Err(DispatchError::Upfront(Error::PlayerCountOverflow)),
        };
        if !(new_player_count <= self.max_player) {
            return Err(DispatchError::Upfront(Error::ExceedMaxPlayer));
        }
        Ok(())
    }

    /// The fees charged to the players in game, in order: a zero-fee
    /// withdrawal from each. A refused withdrawal is not an error, so the
    /// charge always succeeds.
    pub fn charge_ingame(&self) -> (r: Result<Vec<CurrencyOp>, Error>)
        ensures
            r matches Ok(ops) && ops@.len() == self@.ingame_players.len() && forall|i: int|
                0 <= i < ops@.len() ==> #[trigger] ops@[i] == (CurrencyOp::Withdraw {
                    who: self@.ingame_players[i],
                    amount: 0,
                }),
    {
        let mut ops: Vec<CurrencyOp> = Vec::new();
        let mut i: usize = 0;
        while i < self.ingame_players.len()
            invariant
                0 <= i <= self.ingame_players.len(),
                ops@.len() == i,
                forall|k: int|
                    0 <= k < i ==> #[trigger] ops@[k] == (CurrencyOp::Withdraw {
                        who: self.ingame_players@[k],
                        amount: 0,
                    }),
            decreases self.ingame_players.len() - i,
        {
            let fee_value: Balance = 0;
            ops.push(CurrencyOp::Withdraw { who: self.ingame_players[i], amount: fee_value });
            i = i + 1;
        }
        Ok(ops)
    }

    /// The service of the upfront pool a player holds a ticket of.
    pub fn get_player_service(&self, player: AccountId) -> (r: Option<SystemService>)
        requires
            self@.wf(),
        ensures
            r == (match pool_joined_spec(self@, player) {
                Some(pool_id) => kv_lookup(self@.services, pool_id),
                None => None,
            }),
    {
        if let Some(pool_id) = self.get_pool_joined(player) {
            return self.get_service(pool_id);
        }
        None
    }

    /// The upfront pool a player holds a ticket of.
    pub fn get_pool_joined(&self, player: AccountId) -> (r: Option<ID>)
        requires
            self@.wf(),
        ensures
            r == pool_joined_spec(self@, player),
    {
        if let Some(ticket) = self.get_ticket(player) {
            if let TicketType::Upfront(pool_id) = ticket.ticket_type {
                return Some(pool_id);
            }
        }
        None
    }

    /// A timestamp as a `u128`, saturating (a `u64` always fits).
    pub fn moment_to_u128(input: u64) -> (r: u128)
        ensures
            r == input,
    {
        input as u128
    }

    /// The current timestamp as a `u128`.
    pub fn get_timestamp(now: u64) -> (r: u128)
        ensures
            r == now,
    {
        now as u128
    }

    /// The service of a pool, or `PoolNotFound`.
    pub fn get_pool_by_id(&self, pool_id: ID) -> (r: Result<SystemService, Error>)
        requires
            self@.wf(),
        ensures
            r == (match kv_lookup(self@.services, pool_id) {
                Some(s) => Ok::<SystemService, Error>(s),
                None => Err(Error::PoolNotFound),
            }),
    {
        match self.get_service(pool_id) {
            Some(service) => Ok(service),
            None => Err(Error::PoolNotFound),
        }
    }

    /// At the end of a block nothing happens yet.
    pub fn on_finalize(&mut self, _block_number: u32)
        ensures
            final(self)@ == old(self)@,
    {
    }
}

} // verus!
