//! The interfaces between the whitelist pallet and the pool hub.

use vstd::prelude::*;
use crate::primitives::constant::ID;
use crate::support::AccountId as Account;

verus! {

/// A pool that whitelisted players can be admitted to: `spec_joined` is
/// what `is_joined_pool` reports, and `spec_join_pool` relates the state
/// before `join_pool` to the state after it and its result.
pub trait WhitelistPool<AccountId>: Sized {
    spec fn spec_joined(&self, sender: AccountId, pool_id: ID) -> bool;

    spec fn spec_join_pool(&self, after: Self, sender: AccountId, pool_id: ID, r: Result<(), &'static str>) -> bool;

    fn join_pool(&mut self, sender: AccountId, pool_id: ID) -> (r: Result<(), &'static str>)
        ensures
            old(self).spec_join_pool(*final(self), sender, pool_id, r),
    ;

    fn is_joined_pool(&self, sender: AccountId, pool_id: ID) -> (r: bool)
        ensures
            r == self.spec_joined(sender, pool_id),
    ;
}

/// No pool: nobody can join, nobody has joined.
impl WhitelistPool<Account> for () {
    open spec fn spec_joined(&self, sender: Account, pool_id: ID) -> bool {
        false
    }

    open spec fn spec_join_pool(&self, after: (), sender: Account, pool_id: ID, r: Result<(), &'static str>) -> bool {
        r == Err::<(), &'static str>("default")
    }

    fn join_pool(&mut self, _sender: Account, _pool_id: ID) -> (r: Result<(), &'static str>)
        ensures
            r == Err::<(), &'static str>("default"),
    {
        Err("default")
    }

    fn is_joined_pool(&self, _sender: Account, _pool_id: ID) -> (r: bool)
        ensures
            !r,
    {
        false
    }
}

/// A registry of whitelist applications.
pub trait IWhiteList<AccountId> {
    fn is_whitelist(&self, pool_id: ID) -> bool;

    fn insert_whitelist(&mut self, pool_id: ID, player: AccountId) -> Result<(), &'static str>;
}

/// No registry: no pool is whitelisted, no application is taken.
impl IWhiteList<Account> for () {
    fn is_whitelist(&self, _pool_id: ID) -> (r: bool)
        ensures
            !r,
    {
        false
    }

    fn insert_whitelist(&mut self, _pool_id: ID, _player: Account) -> (r: Result<(), &'static str>)
        ensures
            r == Err::<(), &'static str>("default"),
    {
        Err("default")
    }
}

} // verus!
