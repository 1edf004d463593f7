//! Pool kinds, the service a pool grants, and the master-pool interface.

use vstd::prelude::*;
use crate::primitives::constant::ID;
use crate::support::AccountId as Account;

verus! {

#[derive(Clone, Copy, Debug, PartialEq, Eq, Structural)]
pub enum PoolType {
    Upfront,
    Staking,
    Sponsored,
}

/// What a pool grants: a number of transactions per period and a discount,
/// the discount in parts per million.
#[derive(Clone, Copy, Debug, PartialEq, Eq, Structural)]
pub struct Service {
    pub tx_limit: u32,
    pub discount: u32,
}

/// The pool that keeps time for the system pools.
pub trait MasterPool<AccountId> {
    fn remove_player(&mut self, player: AccountId, pool_id: ID);

    fn get_timeservice(&self) -> u128;

    fn get_marktime(&self) -> u128;
}

/// No master pool: a period of thirty minutes, marked at time zero.
impl MasterPool<Account> for () {
    fn remove_player(&mut self, _player: Account, _pool_id: ID) {
    }

    fn get_timeservice(&self) -> (r: u128)
        ensures
            r == 1_800_000,
    {
        30 * 60_000
    }

    fn get_marktime(&self) -> (r: u128)
        ensures
            r == 0,
    {
        0
    }
}

/// How a sponsored pool admits players.
#[derive(Clone, Copy, Debug, PartialEq, Eq, Structural)]
pub enum SponsoredPoolJoinType {
    Default,
    Whitelist,
}

pub trait SponsoredPoolJoinTypeHandle<AccountId> {
    fn set_join_type(
        &mut self,
        pool_id: ID,
        join_type: SponsoredPoolJoinType,
        call_check_url: Vec<u8>,
        account_id: AccountId,
    ) -> Result<(), crate::support::DispatchError>;

    fn reset(&mut self, pool_id: ID, account_id: AccountId) -> Result<(), crate::support::DispatchError>;

    fn get_join_type(&self, pool_id: ID) -> Option<(SponsoredPoolJoinType, Vec<u8>)>;
}

pub trait GetSponsorePoolJoinType {
    fn get_join_type(&self, pool_id: ID) -> (SponsoredPoolJoinType, Vec<u8>);
}

} // verus!
