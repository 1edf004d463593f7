//! The runtime notions the pallets rely on: accounts, origins, dispatch
//! errors and byte-wise key comparison.

use vstd::prelude::*;
use crate::pallets::faucet::Error as FaucetError;
use crate::pallets::pool::Error as PoolError;
use crate::pallets::upfront_pool::Error as UpfrontError;
use crate::pallets::whitelist::Error as WhitelistError;

verus! {

/// A 32-byte account identifier.
pub type AccountId = [u8; 32];

/// A 20-byte contract address.
pub type H160 = [u8; 20];

/// Amounts of the native currency.
pub type Balance = u128;

/// Who dispatched a call.
#[derive(Clone, Copy, Debug, PartialEq, Eq)]
pub enum Origin {
    Signed(AccountId),
    Root,
    Unsigned,
}

/// Why a dispatched call failed.
#[derive(Clone, Copy, Debug, PartialEq, Eq)]
pub enum DispatchError {
    BadOrigin,
    Other(&'static str),
    Pool(PoolError),
    Upfront(UpfrontError),
    Whitelist(WhitelistError),
    Faucet(FaucetError),
}

pub type DispatchResult = Result<(), DispatchError>;

/// A balance operation a call asks the currency pallet to carry out.
#[derive(Clone, Copy, Debug, PartialEq, Eq)]
pub enum CurrencyOp {
    Reserve { who: AccountId, amount: Balance },
    Unreserve { who: AccountId, amount: Balance },
    Transfer { from: AccountId, to: AccountId, amount: Balance },
    Withdraw { who: AccountId, amount: Balance },
}

/// The signer of a signed origin; any other origin is refused.
pub fn ensure_signed(origin: Origin) -> (r: Result<AccountId, DispatchError>)
    ensures
        r == (match origin {
            Origin::Signed(who) => Ok(who),
            _ => Err::<AccountId, DispatchError>(DispatchError::BadOrigin),
        }),
{
    match origin {
        Origin::Signed(who) => Ok(who),
        _ => Err(DispatchError::BadOrigin),
    }
}

/// Byte-wise equality of two 32-byte keys (accounts and pool ids).
pub fn bytes32_eq(a: &[u8; 32], b: &[u8; 32]) -> (r: bool)
    ensures
        r == (*a == *b),
{
    let mut i: usize = 0;
    while i < 32
        invariant
            0 <= i <= 32,
            forall|j: int| 0 <= j < i ==> a[j] == b[j],
        decreases 32 - i,
    {
        if a[i] != b[i] {
            return false;
        }
        i = i + 1;
    }
    assert(*a =~= *b);
    true
}

/// Byte-wise equality of two contract addresses.
pub fn h160_eq(a: &[u8; 20], b: &[u8; 20]) -> (r: bool)
    ensures
        r == (*a == *b),
{
    let mut i: usize = 0;
    while i < 20
        invariant
            0 <= i <= 20,
            forall|j: int| 0 <= j < i ==> a[j] == b[j],
        decreases 20 - i,
    {
        if a[i] != b[i] {
            return false;
        }
        i = i + 1;
    }
    assert(*a =~= *b);
    true
}

/// Whether `target` occurs in `targets`.
pub fn contains_h160(targets: &Vec<H160>, target: &H160) -> (r: bool)
    ensures
        r == targets@.contains(*target),
{
    let mut i: usize = 0;
    while i < targets.len()
        invariant
            0 <= i <= targets.len(),
            forall|j: int| 0 <= j < i ==> targets@[j] != *target,
        decreases targets.len() - i,
    {
        if h160_eq(&targets[i], target) {
            assert(targets@[i as int] == *target);
            return true;
        }
        i = i + 1;
    }
    false
}

} // verus!
