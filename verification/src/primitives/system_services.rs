//! The services of the system pools (upfront and staking) and the interface
//! through which the pool hub reaches them.

use vstd::prelude::*;
use crate::primitives::constant::ID;
use crate::primitives::pool::Service;
use crate::primitives::ticket::Ticket;
use crate::support::DispatchResult;
use crate::support::AccountId as Account;

verus! {

/// A service offered by a system pool, with its price.
#[derive(Clone, Copy, Debug, PartialEq, Eq)]
pub struct SystemService {
    pub id: ID,
    pub service: Service,
    pub value: u128,
}

impl SystemService {
    pub fn new(id: ID, tx_limit: u32, discount: u32, value: u128) -> (r: Self)
        ensures
            r == (SystemService { id, service: Service { tx_limit, discount }, value }),
    {
        SystemService { id, service: Service { tx_limit, discount }, value }
    }
}

/// A system pool as the pool hub sees it. Every answer is a function of
/// the pool's state and the arguments: `spec_join` and `spec_leave` give
/// the state after the call and its result, `spec_service` what
/// `get_service` reports.
pub trait SystemPool<AccountIdLookup, AccountId>: Sized {
    spec fn spec_join(&self, sender: AccountIdLookup, pool_id: ID) -> (Self, DispatchResult);

    spec fn spec_leave(&self, sender: AccountIdLookup) -> (Self, DispatchResult);

    spec fn spec_service(&self, pool_id: ID) -> Option<SystemService>;

    fn join(&mut self, sender: AccountIdLookup, pool_id: ID) -> (r: DispatchResult)
        ensures
            (*final(self), r) == old(self).spec_join(sender, pool_id),
    ;

    fn leave(&mut self, sender: AccountIdLookup) -> (r: DispatchResult)
        ensures
            (*final(self), r) == old(self).spec_leave(sender),
    ;

    fn get_service(&self, pool_id: ID) -> (r: Option<SystemService>)
        ensures
            r == self.spec_service(pool_id),
    ;

    fn get_ticket(&self, sender: AccountId) -> Option<Ticket<AccountId>>;
}

/// No system pool: joining and leaving succeed, nothing is offered.
impl SystemPool<Account, Account> for () {
    open spec fn spec_join(&self, sender: Account, pool_id: ID) -> ((), DispatchResult) {
        ((), Ok(()))
    }

    open spec fn spec_leave(&self, sender: Account) -> ((), DispatchResult) {
        ((), Ok(()))
    }

    open spec fn spec_service(&self, pool_id: ID) -> Option<SystemService> {
        None
    }

    fn join(&mut self, _sender: Account, _pool_id: ID) -> (r: DispatchResult) {
        Ok(())
    }

    fn leave(&mut self, _sender: Account) -> (r: DispatchResult) {
        Ok(())
    }

    fn get_service(&self, _pool_id: ID) -> (r: Option<SystemService>) {
        None
    }

    fn get_ticket(&self, _sender: Account) -> (r: Option<Ticket<Account>>)
        ensures
            r is None,
    {
        None
    }
}

/// The services a system pool starts with.
pub trait SystemDefaultServices {
    fn get_default_services(&self) -> [(ID, SystemService); 3];
}

} // verus!
