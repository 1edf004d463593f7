//! The pool hub: players join and leave upfront, staking and sponsored
//! pools here, and every joined pool leaves a ticket in storage that pays
//! for a number of transactions.

use vstd::prelude::*;
use crate::pallets::tickets::{
    clear_prefix_exec, clear_prefix_seq, count_entries, count_of, insert_entry, keys_unique, lookup,
    remove_entry, TicketEntry,
};
use crate::primitives::cache::{cache_inserted, Cache};
use crate::storage::{kv_find, kv_insert_exec, kv_remove_exec};
use crate::primitives::constant::ID;
use crate::primitives::custom_services::{CustomPool, CustomService};
use crate::primitives::pool::{PoolType, Service};
use crate::primitives::system_services::{SystemPool, SystemService};
use crate::primitives::ticket::{ticket_pool, TicketInfo, TicketType};
use crate::support::{
    bytes32_eq, contains_h160, ensure_signed, AccountId, DispatchError, DispatchResult, Origin, H160,
};

verus! {

/// How many tickets of one player `leave_all` clears at most.
pub const LEAVE_ALL_LIMIT: u32 = 6;

#[derive(Clone, Copy, Debug, PartialEq, Eq, Structural)]
pub enum Error {
    NoneValue,
    StorageOverflow,
    AlreadyJoined,
    NotFoundInPool,
    TicketNotFound,
    ComingSoon,
    ExceedJoinedPool,
    PoolNotFound,
    NotPoolOwner,
    NotWhitelist,
    ParseIdFail,
}

/// The name of an error, as the runtime reports it.
pub open spec fn error_name(e: Error) -> &'static str {
    match e {
        Error::NoneValue => "NoneValue",
        Error::StorageOverflow => "StorageOverflow",
        Error::AlreadyJoined => "AlreadyJoined",
        Error::NotFoundInPool => "NotFoundInPool",
        Error::TicketNotFound => "TicketNotFound",
        Error::ComingSoon => "ComingSoon",
        Error::ExceedJoinedPool => "ExceedJoinedPool",
        Error::PoolNotFound => "PoolNotFound",
        Error::NotPoolOwner => "NotPoolOwner",
        Error::NotWhitelist => "NotWhitelist",
        Error::ParseIdFail => "ParseIdFail",
    }
}

impl Error {
    pub fn as_str(&self) -> (r: &'static str)
        ensures
            r == error_name(*self),
    {
        match self {
            Error::NoneValue => "NoneValue",
            Error::StorageOverflow => "StorageOverflow",
            Error::AlreadyJoined => "AlreadyJoined",
            Error::NotFoundInPool => "NotFoundInPool",
            Error::TicketNotFound => "TicketNotFound",
            Error::ComingSoon => "ComingSoon",
            Error::ExceedJoinedPool => "ExceedJoinedPool",
            Error::PoolNotFound => "PoolNotFound",
            Error::NotPoolOwner => "NotPoolOwner",
            Error::NotWhitelist => "NotWhitelist",
            Error::ParseIdFail => "ParseIdFail",
        }
    }
}

#[derive(Clone, Copy, Debug, PartialEq, Eq)]
pub enum Event {
    SomethingStored(u32, AccountId),
    Joined { sender: AccountId, pool_id: ID },
    Leaved { sender: AccountId, ticket: TicketType },
    LeavedAll { sender: AccountId, pool_type: PoolType },
}

/// What the three configured pools answer for one pool id.
pub struct PoolServices {
    pub upfront: Option<SystemService>,
    pub staking: Option<SystemService>,
    pub sponsored: Option<CustomService<AccountId>>,
}

/// The abstract state of the pool hub.
pub struct PoolState {
    pub tickets: Seq<TicketEntry>,
    pub mark_time: u128,
    pub time_service: u128,
    pub max_joined_sponsored_pool: u32,
    pub events: Seq<Event>,
}

impl PoolState {
    pub open spec fn wf(self) -> bool {
        keys_unique(self.tickets)
    }
}

/// The pool hub's storage and configuration.
pub struct Pallet {
    tickets: Vec<TicketEntry>,
    mark_time: u128,
    time_service: u128,
    max_joined_sponsored_pool: u32,
    events: Vec<Event>,
}

impl View for Pallet {
    type V = PoolState;

    closed spec fn view(&self) -> PoolState {
        PoolState {
            tickets: self.tickets@,
            mark_time: self.mark_time,
            time_service: self.time_service,
            max_joined_sponsored_pool: self.max_joined_sponsored_pool,
            events: self.events@,
        }
    }
}

/// A stored ticket of `sender` keeps it out of `pool_id`: any upfront or
/// staking ticket, or a sponsored ticket of that very pool.
pub open spec fn blocks_join(t: TicketType, pool_id: ID) -> bool {
    match t {
        TicketType::Upfront(_) => true,
        TicketType::Staking(_) => true,
        TicketType::Sponsored(id) => id == pool_id,
    }
}

pub open spec fn joined(s: Seq<TicketEntry>, sender: AccountId, pool_id: ID) -> bool {
    exists|i: int|
        0 <= i < s.len() && (#[trigger] s[i]).key.0 == sender && blocks_join(
            s[i].value.ticket_type,
            pool_id,
        )
}

pub open spec fn ticket_type_spec(pool_id: ID, sv: PoolServices) -> Result<TicketType, Error> {
    if sv.upfront is Some {
        Ok(TicketType::Upfront(pool_id))
    } else if sv.staking is Some {
        Ok(TicketType::Staking(pool_id))
    } else if sv.sponsored is Some {
        Ok(TicketType::Sponsored(pool_id))
    } else {
        Err(Error::PoolNotFound)
    }
}

pub open spec fn ticket_service_spec(ticket: TicketType, sv: PoolServices) -> Result<Service, Error> {
    match ticket {
        TicketType::Upfront(_) => match sv.upfront {
            Some(s) => Ok(s.service),
            None => Err(Error::PoolNotFound),
        },
        TicketType::Staking(_) => match sv.staking {
            Some(s) => Ok(s.service),
            None => Err(Error::PoolNotFound),
        },
        TicketType::Sponsored(_) => match sv.sponsored {
            Some(s) => Ok(s.service),
            None => Err(Error::PoolNotFound),
        },
    }
}

pub open spec fn service_spec(sv: PoolServices) -> Option<Service> {
    if sv.upfront is Some {
        Some(sv.upfront->0.service)
    } else if sv.staking is Some {
        Some(sv.staking->0.service)
    } else if sv.sponsored is Some {
        Some(sv.sponsored->0.service)
    } else {
        None
    }
}

/// A new ticket takes its count from the cache when the player left the
/// pool before, and from the pool's service otherwise.
pub open spec fn create_ticket_spec(pool_id: ID, sv: PoolServices, cached: Option<TicketInfo>) -> Result<
    TicketInfo,
    Error,
> {
    match ticket_type_spec(pool_id, sv) {
        Err(e) => Err(e),
        Ok(t) => match cached {
            Some(c) => Ok(TicketInfo { ticket_type: t, tickets: c.tickets }),
            None => match ticket_service_spec(t, sv) {
                Err(e) => Err(e),
                Ok(s) => Ok(TicketInfo { ticket_type: t, tickets: s.tx_limit }),
            },
        },
    }
}

/// How `join_pool` ends for the ticket it made: a made ticket is stored under
/// (sender, pool id); an error is reported by name and stores nothing.
pub open spec fn join_pool_outcome(
    before: PoolState,
    after: PoolState,
    sender: AccountId,
    pool_id: ID,
    r: Result<(), &'static str>,
    ticket: Result<TicketInfo, Error>,
) -> bool {
    match ticket {
        Ok(t) => r is Ok && after == (PoolState {
            tickets: insert_entry(before.tickets, sender, pool_id, t),
            ..before
        }),
        Err(e) => r == Err::<(), &'static str>(error_name(e)) && after == before,
    }
}

pub open spec fn join_check_spec(
    st: PoolState,
    sender: AccountId,
    pool_id: ID,
    ticket_type: Result<TicketType, Error>,
) -> Result<TicketType, DispatchError> {
    if joined(st.tickets, sender, pool_id) {
        Err(DispatchError::Pool(Error::AlreadyJoined))
    } else {
        match ticket_type {
            Err(e) => Err(DispatchError::Pool(e)),
            Ok(t) => if (t is Sponsored) && count_of(st.tickets, sender)
                > st.max_joined_sponsored_pool {
                Err(DispatchError::Pool(Error::ExceedJoinedPool))
            } else {
                Ok(t)
            },
        }
    }
}

/// A ticket `use_ticket` may spend: the player's, with a transaction left,
/// and, for a sponsored pool, a target among the pool's contracts.
pub open spec fn usable(e: TicketEntry, player: AccountId, target: Option<H160>, targets: Seq<H160>) -> bool {
    &&& e.key.0 == player
    &&& e.value.tickets >= 1
    &&& match e.value.ticket_type {
        TicketType::Sponsored(_) => target is Some && targets.contains(target->0),
        _ => true,
    }
}

/// Entry `i` is the first usable one.
pub open spec fn first_usable(
    s: Seq<TicketEntry>,
    player: AccountId,
    target: Option<H160>,
    targets: Seq<Vec<H160>>,
    i: int,
) -> bool {
    &&& 0 <= i < s.len()
    &&& usable(s[i], player, target, targets[i]@)
    &&& forall|j: int| 0 <= j < i ==> !usable(#[trigger] s[j], player, target, targets[j]@)
}

/// The contracts a sponsored pool pays for, as the pool reports them.
pub open spec fn targets_spec(o: Option<CustomService<AccountId>>) -> Seq<H160> {
    match o {
        Some(sv) => sv.targets@,
        None => Seq::empty(),
    }
}

/// What the three configured pools report under a pool id.
pub open spec fn services_spec<
    U: SystemPool<AccountId, AccountId>,
    S: SystemPool<AccountId, AccountId>,
    P: CustomPool<AccountId>,
>(pool_id: ID, upfront: U, staking: S, sponsored: P) -> PoolServices {
    PoolServices {
        upfront: upfront.spec_service(pool_id),
        staking: staking.spec_service(pool_id),
        sponsored: sponsored.spec_service(pool_id),
    }
}

/// The targets that count for an entry: those its sponsored pool pays for.
pub open spec fn ticket_targets<P: CustomPool<AccountId>>(sponsored: P, e: TicketEntry) -> Seq<H160> {
    match e.value.ticket_type {
        TicketType::Sponsored(pid) => targets_spec(sponsored.spec_service(pid)),
        _ => Seq::empty(),
    }
}

/// A ticket `use_ticket` may spend, with the targets its pool reports.
pub open spec fn hub_usable<P: CustomPool<AccountId>>(
    e: TicketEntry,
    player: AccountId,
    target: Option<H160>,
    sponsored: P,
) -> bool {
    usable(e, player, target, ticket_targets(sponsored, e))
}

/// Entry `i` is the first ticket `use_ticket` may spend.
pub open spec fn first_hub_usable<P: CustomPool<AccountId>>(
    s: Seq<TicketEntry>,
    player: AccountId,
    target: Option<H160>,
    sponsored: P,
    i: int,
) -> bool {
    &&& 0 <= i < s.len()
    &&& hub_usable(s[i], player, target, sponsored)
    &&& forall|j: int| 0 <= j < i ==> !hub_usable(#[trigger] s[j], player, target, sponsored)
}

/// What the pool of a ticket kind answers when asked to admit a player.
pub open spec fn join_answer<
    U: SystemPool<AccountId, AccountId>,
    S: SystemPool<AccountId, AccountId>,
    P: CustomPool<AccountId>,
>(tt: TicketType, upfront: U, staking: S, sponsored: P, sender: AccountId, pool_id: ID) -> DispatchResult {
    match tt {
        TicketType::Upfront(_) => upfront.spec_join(sender, pool_id).1,
        TicketType::Staking(_) => staking.spec_join(sender, pool_id).1,
        TicketType::Sponsored(_) => sponsored.spec_join(sender, pool_id).1,
    }
}

/// What the pool of a ticket kind answers when asked to let a player go.
pub open spec fn leave_answer<
    U: SystemPool<AccountId, AccountId>,
    S: SystemPool<AccountId, AccountId>,
    P: CustomPool<AccountId>,
>(tt: TicketType, upfront: U, staking: S, sponsored: P, sender: AccountId) -> DispatchResult {
    match tt {
        TicketType::Upfront(_) => upfront.spec_leave(sender).1,
        TicketType::Staking(_) => staking.spec_leave(sender).1,
        TicketType::Sponsored(_) => sponsored.spec_leave(sender).1,
    }
}

/// How `join` ends once the chosen pool answered: a refusal changes
/// nothing; otherwise the ticket (when it could be made) is stored and
/// `Joined` deposited.
pub open spec fn join_complete_spec(
    before: PoolState,
    after: PoolState,
    sender: AccountId,
    pool_id: ID,
    answer: DispatchResult,
    ticket: Result<TicketInfo, Error>,
) -> bool {
    if answer is Err {
        after == before
    } else {
        after == (PoolState {
            tickets: match ticket {
                Ok(t) => insert_entry(before.tickets, sender, pool_id, t),
                Err(_) => before.tickets,
            },
            events: before.events.push(Event::Joined { sender, pool_id }),
            ..before
        })
    }
}

/// How `leave` ends once the ticket's pool answered: a refusal is passed
/// on and changes nothing; otherwise the ticket is removed and `Leaved`
/// deposited.
pub open spec fn leave_outcome(
    before: PoolState,
    after: PoolState,
    sender: AccountId,
    pool_id: ID,
    ticket: TicketInfo,
    answer: DispatchResult,
    r: DispatchResult,
) -> bool {
    match answer {
        Err(e) => r == Err::<(), DispatchError>(e) && after == before,
        Ok(_) => r is Ok && after == (PoolState {
            tickets: remove_entry(before.tickets, sender, pool_id),
            events: before.events.push(Event::Leaved { sender, ticket: ticket.ticket_type }),
            ..before
        }),
    }
}

/// The pool `leave_all` names: the first, in the order upfront, staking,
/// sponsored, that let the player go.
pub open spec fn first_left(upfront: DispatchResult, staking: DispatchResult, sponsored: DispatchResult) -> Option<PoolType> {
    if upfront is Ok {
        Some(PoolType::Upfront)
    } else if staking is Ok {
        Some(PoolType::Staking)
    } else if sponsored is Ok {
        Some(PoolType::Sponsored)
    } else {
        None
    }
}

/// The service each stored entry's pool id is offered under now.
pub open spec fn renew_services<
    U: SystemPool<AccountId, AccountId>,
    S: SystemPool<AccountId, AccountId>,
    P: CustomPool<AccountId>,
>(s: Seq<TicketEntry>, upfront: U, staking: S, sponsored: P) -> Seq<Option<Service>> {
    Seq::new(s.len(), |i: int| service_spec(services_spec(s[i].key.1, upfront, staking, sponsored)))
}

/// The entries after renewal: each entry whose pool offers a service gets
/// that service's transaction limit.
pub open spec fn renewed(s: Seq<TicketEntry>, services: Seq<Option<Service>>) -> Seq<TicketEntry> {
    Seq::new(
        s.len(),
        |i: int|
            match services[i] {
                Some(sv) => TicketEntry {
                    value: TicketInfo { ticket_type: s[i].value.ticket_type, tickets: sv.tx_limit },
                    ..s[i]
                },
                None => s[i],
            },
    )
}

/// The mark after a block ends at `now`: moved to `now` once a whole
/// period has passed since it.
pub open spec fn finalized_mark(mark: u128, period: u128, now: u64) -> u128 {
    if now - mark >= period {
        now as u128
    } else {
        mark
    }
}

/// `TimeService`'s default: one hour.
#[allow(non_snake_case)]
pub fn DefaultTimeService() -> (r: u128)
    ensures
        r == 3_600_000,
{
    3_600_000u128
}

/// `MarkTime`'s default: the current timestamp.
#[allow(non_snake_case)]
pub fn DefaultMarkTime(now: u64) -> (r: u128)
    ensures
        r == now,
{
    now as u128
}

pub struct GenesisConfig {}

impl Default for GenesisConfig {
    fn default() -> (r: Self)
        ensures
            r == (GenesisConfig {}),
    {
        GenesisConfig {}
    }
}

impl GenesisConfig {
    /// The hub at genesis: the configured period, marked now, no ticket.
    pub fn build(&self, time_service_storage: u128, now: u64, max_joined_sponsored_pool: u32) -> (r:
        Pallet)
        ensures
            r@ == (PoolState {
                tickets: Seq::empty(),
                mark_time: now as u128,
                time_service: time_service_storage,
                max_joined_sponsored_pool,
                events: Seq::empty(),
            }),
            r@.wf(),
    {
        let r = Pallet {
            tickets: Vec::new(),
            mark_time: now as u128,
            time_service: time_service_storage,
            max_joined_sponsored_pool,
            events: Vec::new(),
        };
        assert(r.tickets@ =~= Seq::<TicketEntry>::empty());
        r
    }
}

/// Asks each configured pool for its service under `pool_id`.
pub(crate) fn query_services<
    U: SystemPool<AccountId, AccountId>,
    S: SystemPool<AccountId, AccountId>,
    P: CustomPool<AccountId>,
>(pool_id: ID, upfront: &U, staking: &S, sponsored: &P) -> (r: PoolServices)
    ensures
        r == services_spec(pool_id, *upfront, *staking, *sponsored),
{
    PoolServices {
        upfront: upfront.get_service(pool_id),
        staking: staking.get_service(pool_id),
        sponsored: sponsored.get_service(pool_id),
    }
}

impl Pallet {
    /// The stored ticket under (sender, pool id).
    pub fn tickets(&self, sender: AccountId, pool_id: ID) -> (r: Option<TicketInfo>)
        requires
            self@.wf(),
        ensures
            r == lookup(self@.tickets, sender, pool_id),
    {
        match kv_find(&self.tickets, &(sender, pool_id)) {
            Some(i) => Some(self.tickets[i].value),
            None => None,
        }
    }

    pub fn mark_time(&self) -> (r: u128)
        ensures
            r == self@.mark_time,
    {
        self.mark_time
    }

    pub fn time_service(&self) -> (r: u128)
        ensures
            r == self@.time_service,
    {
        self.time_service
    }

    /// The events deposited so far, oldest first.
    pub fn events(&self) -> (r: &Vec<Event>)
        ensures
            r@ == self@.events,
    {
        &self.events
    }

    /// The number of stored tickets.
    pub fn ticket_count(&self) -> (r: usize)
        ensures
            r == self@.tickets.len(),
    {
        self.tickets.len()
    }

    /// At the end of a block: once a whole period has passed since the mark,
    /// the mark moves to now.
    pub fn on_finalize(&mut self, now: u64)
        requires
            old(self)@.mark_time <= now,
        ensures
            final(self)@ == (PoolState {
                mark_time: finalized_mark(old(self)@.mark_time, old(self)@.time_service, now),
                ..old(self)@
            }),
    {
        let now: u128 = now as u128;
        if now - self.mark_time >= self.time_service {
            self.mark_time = now;
        }
    }

    /// Whether `sender` holds a ticket that keeps it out of `pool_id`.
    pub fn is_joined_pool(&self, sender: AccountId, pool_id: ID) -> (r: bool)
        ensures
            r == joined(self@.tickets, sender, pool_id),
    {
        let mut is_joined = false;
        let mut i: usize = 0;
        while i < self.tickets.len()
            invariant
                0 <= i <= self.tickets.len(),
                is_joined == exists|j: int|
                    0 <= j < i && (#[trigger] self.tickets@[j]).key.0 == sender && blocks_join(
                        self.tickets@[j].value.ticket_type,
                        pool_id,
                    ),
            decreases self.tickets.len() - i,
        {
            let e = self.tickets[i];
            if bytes32_eq(&e.key.0, &sender) {
                match e.value.ticket_type {
                    TicketType::Upfront(_) => is_joined = true,
                    TicketType::Staking(_) => is_joined = true,
                    TicketType::Sponsored(joined_pool_id) => {
                        if bytes32_eq(&joined_pool_id, &pool_id) {
                            is_joined = true;
                        }
                    },
                }
            }
            i = i + 1;
        }
        is_joined
    }

    /// The ticket type a pool id stands for: the first configured pool that
    /// offers a service under it.
    pub fn get_ticket_type(pool_id: ID, services: &PoolServices) -> (r: Result<TicketType, Error>)
        ensures
            r == ticket_type_spec(pool_id, *services),
    {
        if services.upfront.is_some() {
            return Ok(TicketType::Upfront(pool_id));
        }
        if services.staking.is_some() {
            return Ok(TicketType::Staking(pool_id));
        }
        if services.sponsored.is_some() {
            return Ok(TicketType::Sponsored(pool_id));
        }
        Err(Error::PoolNotFound)
    }

    /// The service behind a ticket, from the pool of its kind.
    pub fn get_ticket_service(ticket: TicketType, services: &PoolServices) -> (r: Result<Service, Error>)
        ensures
            r == ticket_service_spec(ticket, *services),
    {
        match ticket {
            TicketType::Upfront(_) => {
                if let Some(service) = &services.upfront {
                    return Ok(service.service);
                }
            },
            TicketType::Staking(_) => {
                if let Some(service) = &services.staking {
                    return Ok(service.service);
                }
            },
            TicketType::Sponsored(_) => {
                if let Some(service) = &services.sponsored {
                    return Ok(service.service);
                }
            },
        }
        Err(Error::PoolNotFound)
    }

    /// The service under a pool id, from the first pool that offers one.
    pub fn get_service(services: &PoolServices) -> (r: Option<Service>)
        ensures
            r == service_spec(*services),
    {
        if let Some(s) = &services.upfront {
            return Some(s.service);
        }
        if let Some(s) = &services.staking {
            return Some(s.service);
        }
        if let Some(s) = &services.sponsored {
            return Some(s.service);
        }
        None
    }

    /// The contracts a sponsored pool pays for; none without the pool.
    pub fn get_targets(sponsored: &Option<CustomService<AccountId>>) -> (r: Vec<H160>)
        ensures
            r@ == (match sponsored {
                Some(s) => s.targets@,
                None => Seq::<H160>::empty(),
            }),
    {
        let mut r: Vec<H160> = Vec::new();
        match sponsored {
            Some(s) => {
                let mut i: usize = 0;
                while i < s.targets.len()
                    invariant
                        0 <= i <= s.targets.len(),
                        r@ == s.targets@.take(i as int),
                    decreases s.targets.len() - i,
                {
                    r.push(s.targets[i]);
                    i = i + 1;
                    assert(r@ =~= s.targets@.take(i as int));
                }
                assert(s.targets@.take(s.targets.len() as int) =~= s.targets@);
            },
            None => {},
        }
        r
    }

    /// The ticket a player gets on joining `pool_id`.
    pub fn create_ticket(pool_id: ID, services: &PoolServices, cached: Option<TicketInfo>) -> (r:
        Result<TicketInfo, Error>)
        ensures
            r == create_ticket_spec(pool_id, *services, cached),
    {
        let ticket_type = Self::get_ticket_type(pool_id, services)?;
        if let Some(cache) = cached {
            return Ok(TicketInfo { ticket_type, tickets: cache.tickets });
        }
        let service = Self::get_ticket_service(ticket_type, services)?;
        Ok(TicketInfo { ticket_type, tickets: service.tx_limit })
    }

    /// Stores the ticket made for (sender, pool id); an error in making it
    /// is reported by name and stores nothing.
    pub fn store_ticket(&mut self, sender: AccountId, pool_id: ID, ticket: Result<TicketInfo, Error>) -> (r:
        Result<(), &'static str>)
        requires
            old(self)@.wf(),
        ensures
            final(self)@.wf(),
            match ticket {
                Ok(t) => r is Ok && final(self)@ == (PoolState {
                    tickets: insert_entry(old(self)@.tickets, sender, pool_id, t),
                    ..old(self)@
                }),
                Err(e) => r == Err::<(), &'static str>(error_name(e)) && final(self)@ == old(self)@,
            },
    {
        match ticket {
            Ok(t) => {
                kv_insert_exec(&mut self.tickets, (sender, pool_id), t);
                Ok(())
            },
            Err(e) => Err(e.as_str()),
        }
    }

    /// Whether `sender` may join `pool_id` as a pool of the given type, and
    /// which type it joins as.
    pub fn join_check(&self, sender: AccountId, pool_id: ID, ticket_type: Result<TicketType, Error>) -> (r:
        Result<TicketType, DispatchError>)
        ensures
            r == join_check_spec(self@, sender, pool_id, ticket_type),
    {
        if self.is_joined_pool(sender, pool_id) {
            return Err(DispatchError::Pool(Error::AlreadyJoined));
        }
        match ticket_type {
            Err(e) => Err(DispatchError::Pool(e)),
            Ok(t) => {
                match t {
                    TicketType::Sponsored(_) => {
                        let count_joined_pool = count_entries(&self.tickets, &sender);
                        if !(count_joined_pool <= self.max_joined_sponsored_pool as usize) {
                            return Err(DispatchError::Pool(Error::ExceedJoinedPool));
                        }
                    },
                    _ => {},
                }
                Ok(t)
            },
        }
    }

    /// The end of `join`, once the chosen pool answered: a refusal by the
    /// pool leaves everything as it was and still succeeds; otherwise the
    /// ticket is stored (when it could be made) and `Joined` is deposited.
    pub fn join_complete(
        &mut self,
        sender: AccountId,
        pool_id: ID,
        pool_join: DispatchResult,
        ticket: Result<TicketInfo, Error>,
    ) -> (r: DispatchResult)
        requires
            old(self)@.wf(),
        ensures
            r is Ok,
            final(self)@.wf(),
            join_complete_spec(old(self)@, final(self)@, sender, pool_id, pool_join, ticket),
    {
        if pool_join.is_err() {
            return Ok(());
        }
        let _ = self.store_ticket(sender, pool_id, ticket);
        self.events.push(Event::Joined { sender, pool_id });
        Ok(())
    }

    /// Makes and stores the ticket of a player admitted to `pool_id`, from
    /// the services the pools report and the player's cached ticket.
    pub fn join_pool<
        U: SystemPool<AccountId, AccountId>,
        S: SystemPool<AccountId, AccountId>,
        P: CustomPool<AccountId>,
        K: Cache<AccountId, ID, TicketInfo>,
    >(&mut self, sender: AccountId, pool_id: ID, upfront: &U, staking: &S, sponsored: &P, cache: &K) -> (r:
        Result<(), &'static str>)
        requires
            old(self)@.wf(),
        ensures
            final(self)@.wf(),
            join_pool_outcome(
                old(self)@,
                final(self)@,
                sender,
                pool_id,
                r,
                create_ticket_spec(
                    pool_id,
                    services_spec(pool_id, *upfront, *staking, *sponsored),
                    cache.spec_get(sender, pool_id),
                ),
            ),
            r is Err ==> r == Err::<(), &'static str>("PoolNotFound"),
    {
        let services = query_services(pool_id, upfront, staking, sponsored);
        let cached = cache.get(sender, pool_id);
        let ticket = Self::create_ticket(pool_id, &services, cached);
        self.store_ticket(sender, pool_id, ticket)
    }

    /// A signed player joins `pool_id`: refused when already joined, when no
    /// pool offers the id, or when it holds too many tickets for another
    /// sponsored pool; otherwise the first pool offering the id (upfront,
    /// staking, sponsored) is asked to admit it, the other two untouched.
    pub fn join<
        U: SystemPool<AccountId, AccountId>,
        S: SystemPool<AccountId, AccountId>,
        P: CustomPool<AccountId>,
        K: Cache<AccountId, ID, TicketInfo>,
    >(
        &mut self,
        origin: Origin,
        pool_id: ID,
        upfront: &mut U,
        staking: &mut S,
        sponsored: &mut P,
        cache: &K,
    ) -> (r: DispatchResult)
        requires
            old(self)@.wf(),
        ensures
            final(self)@.wf(),
            match origin {
                Origin::Signed(sender) => match join_check_spec(
                    old(self)@,
                    sender,
                    pool_id,
                    ticket_type_spec(pool_id, services_spec(pool_id, *old(upfront), *old(staking), *old(sponsored))),
                ) {
                    Err(e) => r == Err::<(), DispatchError>(e) && final(self)@ == old(self)@
                        && *final(upfront) == *old(upfront) && *final(staking) == *old(staking)
                        && *final(sponsored) == *old(sponsored),
                    Ok(tt) => {
                        &&& r is Ok
                        &&& *final(upfront) == (if tt is Upfront {
                            old(upfront).spec_join(sender, pool_id).0
                        } else {
                            *old(upfront)
                        })
                        &&& *final(staking) == (if tt is Staking {
                            old(staking).spec_join(sender, pool_id).0
                        } else {
                            *old(staking)
                        })
                        &&& *final(sponsored) == (if tt is Sponsored {
                            old(sponsored).spec_join(sender, pool_id).0
                        } else {
                            *old(sponsored)
                        })
                        &&& join_complete_spec(
                            old(self)@,
                            final(self)@,
                            sender,
                            pool_id,
                            join_answer(tt, *old(upfront), *old(staking), *old(sponsored), sender, pool_id),
                            create_ticket_spec(
                                pool_id,
                                services_spec(pool_id, *final(upfront), *final(staking), *final(sponsored)),
                                cache.spec_get(sender, pool_id),
                            ),
                        )
                    },
                },
                _ => r == Err::<(), DispatchError>(DispatchError::BadOrigin) && final(self)@ == old(self)@
                    && *final(upfront) == *old(upfront) && *final(staking) == *old(staking)
                    && *final(sponsored) == *old(sponsored),
            },
    {
        let sender = ensure_signed(origin)?;
        let services = query_services(pool_id, &*upfront, &*staking, &*sponsored);
        let ticket_type = self.join_check(sender, pool_id, Self::get_ticket_type(pool_id, &services))?;
        let pool_join = match ticket_type {
            TicketType::Upfront(_) => upfront.join(sender, pool_id),
            TicketType::Staking(_) => staking.join(sender, pool_id),
            TicketType::Sponsored(_) => sponsored.join(sender, pool_id),
        };
        let services_after = query_services(pool_id, &*upfront, &*staking, &*sponsored);
        let cached = cache.get(sender, pool_id);
        let ticket = Self::create_ticket(pool_id, &services_after, cached);
        self.join_complete(sender, pool_id, pool_join, ticket)
    }

    /// The end of `leave` once the ticket's pool answered: a refusal is
    /// passed on and changes nothing; otherwise the ticket goes to the
    /// cache, leaves storage, and `Leaved` is deposited.
    pub fn leave_complete<K: Cache<AccountId, ID, TicketInfo>>(
        &mut self,
        sender: AccountId,
        pool_id: ID,
        ticket: TicketInfo,
        answer: DispatchResult,
        cache: &mut K,
    ) -> (r: DispatchResult)
        requires
            old(self)@.wf(),
        ensures
            final(self)@.wf(),
            leave_outcome(old(self)@, final(self)@, sender, pool_id, ticket, answer, r),
            answer is Ok ==> cache_inserted(*old(cache), *final(cache), sender, pool_id, ticket),
            answer is Err ==> *final(cache) == *old(cache),
    {
        match answer {
            Err(e) => Err(e),
            Ok(_) => {
                cache.insert(sender, pool_id, ticket);
                kv_remove_exec(&mut self.tickets, &(sender, pool_id));
                self.events.push(Event::Leaved { sender, ticket: ticket.ticket_type });
                Ok(())
            },
        }
    }

    /// A signed player leaves `pool_id`: the pool of the ticket's kind is
    /// asked to let it go, the other two untouched; on its consent the
    /// ticket is cached and removed and `Leaved` deposited.
    pub fn leave<
        U: SystemPool<AccountId, AccountId>,
        S: SystemPool<AccountId, AccountId>,
        P: CustomPool<AccountId>,
        K: Cache<AccountId, ID, TicketInfo>,
    >(
        &mut self,
        origin: Origin,
        pool_id: ID,
        upfront: &mut U,
        staking: &mut S,
        sponsored: &mut P,
        cache: &mut K,
    ) -> (r: DispatchResult)
        requires
            old(self)@.wf(),
        ensures
            final(self)@.wf(),
            match origin {
                Origin::Signed(sender) => match lookup(old(self)@.tickets, sender, pool_id) {
                    None => r == Err::<(), DispatchError>(DispatchError::Pool(Error::NotFoundInPool))
                        && final(self)@ == old(self)@ && *final(upfront) == *old(upfront)
                        && *final(staking) == *old(staking) && *final(sponsored) == *old(sponsored)
                        && *final(cache) == *old(cache),
                    Some(t) => {
                        &&& *final(upfront) == (if t.ticket_type is Upfront {
                            old(upfront).spec_leave(sender).0
                        } else {
                            *old(upfront)
                        })
                        &&& *final(staking) == (if t.ticket_type is Staking {
                            old(staking).spec_leave(sender).0
                        } else {
                            *old(staking)
                        })
                        &&& *final(sponsored) == (if t.ticket_type is Sponsored {
                            old(sponsored).spec_leave(sender).0
                        } else {
                            *old(sponsored)
                        })
                        &&& leave_outcome(
                            old(self)@,
                            final(self)@,
                            sender,
                            pool_id,
                            t,
                            leave_answer(t.ticket_type, *old(upfront), *old(staking), *old(sponsored), sender),
                            r,
                        )
                        &&& r is Ok ==> cache_inserted(*old(cache), *final(cache), sender, pool_id, t)
                        &&& r is Err ==> *final(cache) == *old(cache)
                    },
                },
                _ => r == Err::<(), DispatchError>(DispatchError::BadOrigin) && final(self)@ == old(self)@
                    && *final(upfront) == *old(upfront) && *final(staking) == *old(staking)
                    && *final(sponsored) == *old(sponsored) && *final(cache) == *old(cache),
            },
    {
        let sender = ensure_signed(origin)?;
        if let Some(ticket) = self.tickets(sender, pool_id) {
            let answer = match ticket.ticket_type {
                TicketType::Upfront(_) => upfront.leave(sender),
                TicketType::Staking(_) => staking.leave(sender),
                TicketType::Sponsored(_) => sponsored.leave(sender),
            };
            self.leave_complete(sender, pool_id, ticket, answer, cache)
        } else {
            Err(DispatchError::Pool(Error::NotFoundInPool))
        }
    }

    /// The end of `leave_all`, once the pools answered: `LeavedAll` for the
    /// pool that let the player go, if any, and the player's first
    /// `LEAVE_ALL_LIMIT` tickets cleared.
    pub fn leave_all_complete(&mut self, sender: AccountId, left: Option<PoolType>)
        requires
            old(self)@.wf(),
        ensures
            final(self)@.wf(),
            final(self)@ == (PoolState {
                tickets: clear_prefix_seq(old(self)@.tickets, sender, LEAVE_ALL_LIMIT as nat),
                events: match left {
                    Some(pool_type) => old(self)@.events.push(Event::LeavedAll { sender, pool_type }),
                    None => old(self)@.events,
                },
                ..old(self)@
            }),
    {
        if let Some(pool_type) = left {
            self.events.push(Event::LeavedAll { sender, pool_type });
        }
        clear_prefix_exec(&mut self.tickets, &sender, LEAVE_ALL_LIMIT);
    }

    /// A signed player asks the upfront, then the staking, then the
    /// sponsored pool to let it go, stopping at the first that does, which
    /// `LeavedAll` names; its first `LEAVE_ALL_LIMIT` tickets are cleared.
    pub fn leave_all<
        U: SystemPool<AccountId, AccountId>,
        S: SystemPool<AccountId, AccountId>,
        P: CustomPool<AccountId>,
    >(&mut self, origin: Origin, upfront: &mut U, staking: &mut S, sponsored: &mut P) -> (r:
        DispatchResult)
        requires
            old(self)@.wf(),
        ensures
            final(self)@.wf(),
            match origin {
                Origin::Signed(sender) => {
                    let a1 = old(upfront).spec_leave(sender).1;
                    let a2 = old(staking).spec_leave(sender).1;
                    let a3 = old(sponsored).spec_leave(sender).1;
                    &&& r is Ok
                    &&& *final(upfront) == old(upfront).spec_leave(sender).0
                    &&& *final(staking) == (if a1 is Ok {
                        *old(staking)
                    } else {
                        old(staking).spec_leave(sender).0
                    })
                    &&& *final(sponsored) == (if a1 is Ok || a2 is Ok {
                        *old(sponsored)
                    } else {
                        old(sponsored).spec_leave(sender).0
                    })
                    &&& final(self)@ == (PoolState {
                        tickets: clear_prefix_seq(old(self)@.tickets, sender, LEAVE_ALL_LIMIT as nat),
                        events: match first_left(a1, a2, a3) {
                            Some(pool_type) => old(self)@.events.push(Event::LeavedAll { sender, pool_type }),
                            None => old(self)@.events,
                        },
                        ..old(self)@
                    })
                },
                _ => r == Err::<(), DispatchError>(DispatchError::BadOrigin) && final(self)@ == old(self)@
                    && *final(upfront) == *old(upfront) && *final(staking) == *old(staking)
                    && *final(sponsored) == *old(sponsored),
            },
    {
        let sender = ensure_signed(origin)?;
        let left = if upfront.leave(sender).is_ok() {
            Some(PoolType::Upfront)
        } else if staking.leave(sender).is_ok() {
            Some(PoolType::Staking)
        } else if sponsored.leave(sender).is_ok() {
            Some(PoolType::Sponsored)
        } else {
            None
        };
        self.leave_all_complete(sender, left);
        Ok(())
    }

    /// Spends one transaction of the player's first usable ticket, given
    /// for each stored entry the contracts its sponsored pool pays for.
    pub fn use_ticket_with_targets(&mut self, player: AccountId, target: Option<H160>, targets: &Vec<Vec<H160>>) -> (r:
        Option<(TicketType, ID)>)
        requires
            old(self)@.wf(),
            targets@.len() == old(self)@.tickets.len(),
        ensures
            final(self)@.wf(),
            match r {
                Some((tt, pid)) => exists|i: int|
                    #[trigger] first_usable(old(self)@.tickets, player, target, targets@, i) && tt == old(
                        self,
                    )@.tickets[i].value.ticket_type && pid == ticket_pool(tt) && final(self)@ == (
                    PoolState {
                        tickets: insert_entry(
                            old(self)@.tickets,
                            player,
                            pid,
                            TicketInfo {
                                ticket_type: tt,
                                tickets: (old(self)@.tickets[i].value.tickets - 1) as u32,
                            },
                        ),
                        ..old(self)@
                    }),
                None => final(self)@ == old(self)@ && forall|i: int|
                    0 <= i < old(self)@.tickets.len() ==> !usable(
                        #[trigger] old(self)@.tickets[i],
                        player,
                        target,
                        targets@[i]@,
                    ),
            },
            r is None ==> forall|i: int|
                0 <= i < old(self)@.tickets.len() && (#[trigger] old(self)@.tickets[i]).key.0 == player
                    && !(old(self)@.tickets[i].value.ticket_type is Sponsored) ==> old(
                    self,
                )@.tickets[i].value.tickets == 0,
    {
        let ghost s0 = self@;
        let mut i: usize = 0;
        while i < self.tickets.len()
            invariant
                self@ == s0,
                s0 == old(self)@,
                s0.wf(),
                targets@.len() == s0.tickets.len(),
                0 <= i <= self.tickets.len(),
                forall|j: int|
                    0 <= j < i ==> !usable(#[trigger] s0.tickets[j], player, target, targets@[j]@),
            decreases self.tickets.len() - i,
        {
            let e = self.tickets[i];
            if bytes32_eq(&e.key.0, &player) {
                match e.value.ticket_type {
                    TicketType::Upfront(pool_id) => {
                        if let Some(new_ticket_info) = e.value.withdraw_ticket() {
                            kv_insert_exec(&mut self.tickets, (player, pool_id), new_ticket_info);
                            assert(first_usable(s0.tickets, player, target, targets@, i as int));
                            return Some((new_ticket_info.ticket_type, pool_id));
                        }
                    },
                    TicketType::Staking(pool_id) => {
                        if let Some(new_ticket_info) = e.value.withdraw_ticket() {
                            kv_insert_exec(&mut self.tickets, (player, pool_id), new_ticket_info);
                            assert(first_usable(s0.tickets, player, target, targets@, i as int));
                            return Some((new_ticket_info.ticket_type, pool_id));
                        }
                    },
                    TicketType::Sponsored(pool_id) => {
                        if let Some(contract) = target {
                            if contains_h160(&targets[i], &contract) {
                                if let Some(new_ticket_info) = e.value.withdraw_ticket() {
                                    kv_insert_exec(&mut self.tickets, (player, pool_id), new_ticket_info);
                                    assert(first_usable(s0.tickets, player, target, targets@, i as int));
                                    return Some((new_ticket_info.ticket_type, pool_id));
                                }
                            }
                        }
                    },
                }
            }
            i = i + 1;
        }
        None
    }

    /// Spends one transaction of the player's first usable ticket; a
    /// sponsored ticket is usable only for a target its pool pays for.
    pub fn use_ticket<P: CustomPool<AccountId>>(&mut self, player: AccountId, target: Option<H160>, sponsored: &P) -> (r:
        Option<(TicketType, ID)>)
        requires
            old(self)@.wf(),
        ensures
            final(self)@.wf(),
            match r {
                Some((tt, pid)) => exists|i: int|
                    #[trigger] first_hub_usable(old(self)@.tickets, player, target, *sponsored, i) && old(
                        self,
                    )@.tickets[i].value.ticket_type == tt && pid == ticket_pool(tt) && final(self)@ == (
                    PoolState {
                        tickets: insert_entry(
                            old(self)@.tickets,
                            player,
                            pid,
                            TicketInfo {
                                ticket_type: tt,
                                tickets: (old(self)@.tickets[i].value.tickets - 1) as u32,
                            },
                        ),
                        ..old(self)@
                    }),
                None => final(self)@ == old(self)@ && forall|i: int|
                    0 <= i < old(self)@.tickets.len() ==> !hub_usable(
                        #[trigger] old(self)@.tickets[i],
                        player,
                        target,
                        *sponsored,
                    ),
            },
            r is None ==> forall|i: int|
                0 <= i < old(self)@.tickets.len() && (#[trigger] old(self)@.tickets[i]).key.0 == player
                    && !(old(self)@.tickets[i].value.ticket_type is Sponsored) ==> old(
                    self,
                )@.tickets[i].value.tickets == 0,
    {
        let ghost s0 = self@;
        let mut targets: Vec<Vec<H160>> = Vec::new();
        let mut i: usize = 0;
        while i < self.tickets.len()
            invariant
                self@ == s0,
                0 <= i <= self.tickets.len(),
                targets@.len() == i,
                forall|k: int|
                    0 <= k < i ==> usable(#[trigger] s0.tickets[k], player, target, targets@[k]@)
                        == hub_usable(s0.tickets[k], player, target, *sponsored),
            decreases self.tickets.len() - i,
        {
            let e = self.tickets[i];
            let mut t: Vec<H160> = Vec::new();
            if target.is_some() && bytes32_eq(&e.key.0, &player) {
                if let TicketType::Sponsored(pool_id) = e.value.ticket_type {
                    t = Self::get_targets(&sponsored.get_service(pool_id));
                }
            }
            targets.push(t);
            i = i + 1;
        }
        let r = self.use_ticket_with_targets(player, target, &targets);
        proof {
            assert forall|k: int| 0 <= k < s0.tickets.len() implies usable(
                #[trigger] s0.tickets[k],
                player,
                target,
                targets@[k]@,
            ) == hub_usable(s0.tickets[k], player, target, *sponsored) by {}
            if r is Some {
                let i = choose|i: int| #[trigger]
                    first_usable(s0.tickets, player, target, targets@, i) && s0.tickets[i].value.ticket_type
                        == r->Some_0.0 && r->Some_0.1 == ticket_pool(r->Some_0.0) && self@ == (
                    PoolState {
                        tickets: insert_entry(
                            s0.tickets,
                            player,
                            r->Some_0.1,
                            TicketInfo {
                                ticket_type: r->Some_0.0,
                                tickets: (s0.tickets[i].value.tickets - 1) as u32,
                            },
                        ),
                        ..s0
                    });
                assert forall|j: int| 0 <= j < i implies !hub_usable(
                    #[trigger] s0.tickets[j],
                    player,
                    target,
                    *sponsored,
                ) by {
                    assert(!usable(s0.tickets[j], player, target, targets@[j]@));
                }
                assert(first_hub_usable(s0.tickets, player, target, *sponsored, i));
            } else {
                assert forall|k: int| 0 <= k < s0.tickets.len() implies !hub_usable(
                    #[trigger] s0.tickets[k],
                    player,
                    target,
                    *sponsored,
                ) by {
                    assert(!usable(s0.tickets[k], player, target, targets@[k]@));
                }
            }
        }
        r
    }

    /// Renews every ticket whose pool offers a service, given for each
    /// stored entry the service under its pool id.
    pub fn renew_tickets_with_services(&mut self, services: &Vec<Option<Service>>)
        requires
            old(self)@.wf(),
            services@.len() == old(self)@.tickets.len(),
        ensures
            final(self)@.wf(),
            final(self)@ == (PoolState { tickets: renewed(old(self)@.tickets, services@), ..old(self)@ }),
    {
        let ghost s0 = self@;
        let mut i: usize = 0;
        while i < self.tickets.len()
            invariant
                0 <= i <= self.tickets.len(),
                s0.wf(),
                services@.len() == s0.tickets.len(),
                self.tickets@.len() == s0.tickets.len(),
                self@ == (PoolState { tickets: self@.tickets, ..s0 }),
                forall|j: int|
                    0 <= j < i ==> #[trigger] self.tickets@[j] == renewed(s0.tickets, services@)[j],
                forall|j: int| i <= j < self.tickets@.len() ==> #[trigger] self.tickets@[j] == s0.tickets[j],
            decreases self.tickets.len() - i,
        {
            if let Some(sv) = services[i] {
                let e = self.tickets[i];
                let new_ticket = e.value.renew_ticket(sv.tx_limit);
                self.tickets.set(i, TicketEntry { key: e.key, value: new_ticket });
            }
            i = i + 1;
        }
        assert(self.tickets@ =~= renewed(s0.tickets, services@));
        proof {
            let t = self.tickets@;
            assert forall|a: int, b: int|
                0 <= a < t.len() && 0 <= b < t.len() && a != b implies (#[trigger] t[a]).key != (
                #[trigger] t[b]).key by {
                assert(s0.tickets[a].key != s0.tickets[b].key);
            }
        }
    }

    /// Renews every stored ticket to the transaction limit of the service
    /// its pool id is offered under now, by the first pool that offers it.
    pub fn renew_tickets<
        U: SystemPool<AccountId, AccountId>,
        S: SystemPool<AccountId, AccountId>,
        P: CustomPool<AccountId>,
    >(&mut self, upfront: &U, staking: &S, sponsored: &P)
        requires
            old(self)@.wf(),
        ensures
            final(self)@.wf(),
            final(self)@ == (PoolState {
                tickets: renewed(
                    old(self)@.tickets,
                    renew_services(old(self)@.tickets, *upfront, *staking, *sponsored),
                ),
                ..old(self)@
            }),
    {
        let mut services: Vec<Option<Service>> = Vec::new();
        let mut i: usize = 0;
        while i < self.tickets.len()
            invariant
                0 <= i <= self.tickets.len(),
                services@.len() == i,
                forall|k: int|
                    0 <= k < i ==> #[trigger] services@[k] == service_spec(
                        services_spec(self.tickets@[k].key.1, *upfront, *staking, *sponsored),
                    ),
            decreases self.tickets.len() - i,
        {
            let pool_id = self.tickets[i].key.1;
            services.push(Self::get_service(&query_services(pool_id, upfront, staking, sponsored)));
            i = i + 1;
        }
        assert(services@ =~= renew_services(self@.tickets, *upfront, *staking, *sponsored));
        self.renew_tickets_with_services(&services);
    }
}

} // verus!
