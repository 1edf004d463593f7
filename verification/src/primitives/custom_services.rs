//! Sponsored (custom) pools: the service they grant, the contracts it
//! covers, and the interface through which the pallets reach them.

use vstd::prelude::*;
use crate::primitives::constant::ID;
use crate::primitives::pool::Service;
use crate::support::{DispatchResult, H160};

verus! {

/// The service of a sponsored pool: which contracts it pays for.
#[derive(Clone, Debug, PartialEq, Eq)]
pub struct CustomService<AccountId> {
    pub targets: Vec<H160>,
    pub service: Service,
    pub sponsor: AccountId,
}

/// A sponsored pool as the pool hub and the whitelist pallet see it. Every
/// answer is a function of the pool's state and the arguments.
pub trait CustomPool<AccountId>: Sized {
    spec fn spec_join(&self, sender: AccountId, pool_id: ID) -> (Self, DispatchResult);

    spec fn spec_leave(&self, sender: AccountId) -> (Self, DispatchResult);

    spec fn spec_service(&self, pool_id: ID) -> Option<CustomService<AccountId>>;

    spec fn spec_pool_owner(&self, pool_id: ID) -> Option<AccountId>;

    spec fn spec_is_pool(&self, pool_id: ID) -> bool;

    fn join(&mut self, sender: AccountId, pool_id: ID) -> (r: DispatchResult)
        ensures
            (*final(self), r) == old(self).spec_join(sender, pool_id),
    ;

    fn leave(&mut self, sender: AccountId) -> (r: DispatchResult)
        ensures
            (*final(self), r) == old(self).spec_leave(sender),
    ;

    fn get_service(&self, pool_id: ID) -> (r: Option<CustomService<AccountId>>)
        ensures
            r == self.spec_service(pool_id),
    ;

    fn get_pool_owner(&self, pool_id: ID) -> (r: Option<AccountId>)
        ensures
            r == self.spec_pool_owner(pool_id),
    ;

    fn is_pool(&self, pool_id: ID) -> (r: bool)
        ensures
            r == self.spec_is_pool(pool_id),
    ;
}

} // verus!
