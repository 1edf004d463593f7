//! Tickets: what a player holds after joining a pool, and how many
//! transactions it still covers.

use vstd::prelude::*;
use crate::primitives::constant::ID;
use crate::primitives::pool::Service;
use crate::support::H160;
use crate::support::AccountId as Account;

verus! {

/// A player's membership of an upfront or staking pool.
#[derive(Clone, Copy, Debug, PartialEq, Eq)]
pub struct Ticket<AccountId> {
    pub address: AccountId,
    pub join_time: u128,
    pub ticket_type: TicketType,
}

/// The kind of pool a ticket was issued by, with that pool's id.
#[derive(Clone, Copy, Debug, PartialEq, Eq)]
pub enum TicketType {
    Upfront(ID),
    Staking(ID),
    Sponsored(ID),
}

/// The pool id carried by a ticket type.
pub open spec fn ticket_pool(t: TicketType) -> ID {
    match t {
        TicketType::Upfront(id) => id,
        TicketType::Staking(id) => id,
        TicketType::Sponsored(id) => id,
    }
}

/// A ticket type with the number of transactions it still covers.
#[derive(Clone, Copy, Debug, PartialEq, Eq)]
pub struct TicketInfo {
    pub ticket_type: TicketType,
    pub tickets: u32,
}

impl TicketInfo {
    /// One transaction fewer; `None` once none is left.
    pub fn withdraw_ticket(&self) -> (r: Option<Self>)
        ensures
            r == (if self.tickets >= 1 {
                Some(TicketInfo { ticket_type: self.ticket_type, tickets: (self.tickets - 1) as u32 })
            } else {
                None
            }),
    {
        if let Some(new_tickets) = self.tickets.checked_sub(1) {
            return Some(TicketInfo { ticket_type: self.ticket_type, tickets: new_tickets });
        }
        None
    }

    /// The same ticket type, now covering `new_remain` transactions.
    pub fn renew_ticket(&self, new_remain: u32) -> (r: Self)
        ensures
            r == (TicketInfo { ticket_type: self.ticket_type, tickets: new_remain }),
    {
        TicketInfo { tickets: new_remain, ticket_type: self.ticket_type }
    }
}

/// What a pool hub offers to the transaction-fee logic.
pub trait PlayerTicket<AccountId> {
    fn use_ticket(&mut self, player: AccountId, target: Option<H160>) -> Option<(TicketType, ID)>;

    fn get_service(&self, pool_id: ID) -> Option<Service>;

    fn get_targets(&self, pool_id: ID) -> Vec<H160>;
}

/// No pool hub: no ticket, no service, no target.
impl PlayerTicket<Account> for () {
    fn use_ticket(&mut self, _player: Account, _target: Option<H160>) -> (r: Option<(TicketType, ID)>)
        ensures
            r is None,
    {
        None
    }

    fn get_service(&self, _pool_id: ID) -> (r: Option<Service>)
        ensures
            r is None,
    {
        None
    }

    fn get_targets(&self, _pool_id: ID) -> (r: Vec<H160>)
        ensures
            r@.len() == 0,
    {
        Vec::new()
    }
}

} // verus!
