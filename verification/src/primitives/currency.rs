//! The native tokens and their metadata.

use vstd::prelude::*;
use crate::support::DispatchResult;

verus! {

/// Token metadata: byte-string name and symbol, decimals and an id.
#[derive(Clone, Debug, PartialEq, Eq)]
pub struct Token {
    pub name: Vec<u8>,
    pub symbol: Vec<u8>,
    pub decimals: u8,
    pub id: u8,
}

#[derive(Clone, Copy, Debug, PartialEq, Eq, Structural)]
pub enum NativeToken {
    GAFI,
    GAKI,
}

pub trait TokenInfo {
    fn token_info(token: NativeToken) -> Token;
}

/// The balances a pallet moves funds through, as the faucet sees them.
/// Every answer is a function of the balances and the arguments:
/// `spec_free_balance` is what `free_balance` reports, and `spec_transfer`
/// gives the balances after a transfer and its result.
pub trait Currency<AccountId>: Sized {
    spec fn spec_free_balance(&self, who: AccountId) -> u128;

    spec fn spec_transfer(&self, source: AccountId, dest: AccountId, value: u128) -> (Self, DispatchResult);

    fn free_balance(&self, who: &AccountId) -> (r: u128)
        ensures
            r == self.spec_free_balance(*who),
    ;

    fn transfer(&mut self, source: &AccountId, dest: &AccountId, value: u128) -> (r: DispatchResult)
        ensures
            (*final(self), r) == old(self).spec_transfer(*source, *dest, value),
    ;
}

pub type Balance = u128;

/// The bytes of "GAFI TOKEN".
pub open spec fn gafi_name() -> Seq<u8> {
    seq![71u8, 65u8, 70u8, 73u8, 32u8, 84u8, 79u8, 75u8, 69u8, 78u8]
}

/// The bytes of "GAFI".
pub open spec fn gafi_symbol() -> Seq<u8> {
    seq![71u8, 65u8, 70u8, 73u8]
}

/// The bytes of "GAKI TOKEN".
pub open spec fn gaki_name() -> Seq<u8> {
    seq![71u8, 65u8, 75u8, 73u8, 32u8, 84u8, 79u8, 75u8, 69u8, 78u8]
}

/// The bytes of "GAKI".
pub open spec fn gaki_symbol() -> Seq<u8> {
    seq![71u8, 65u8, 75u8, 73u8]
}

/// The metadata of each native token: (name, symbol, decimals, id).
pub open spec fn token_spec(token: NativeToken) -> (Seq<u8>, Seq<u8>, u8, u8) {
    match token {
        NativeToken::GAFI => (gafi_name(), gafi_symbol(), 18u8, 1u8),
        NativeToken::GAKI => (gaki_name(), gaki_symbol(), 18u8, 2u8),
    }
}

pub struct GafiCurrency {}

impl TokenInfo for GafiCurrency {
    fn token_info(token: NativeToken) -> (r: Token)
        ensures
            (r.name@, r.symbol@, r.decimals, r.id) == token_spec(token),
    {
        let gafi: Token = Token {
            name: vec![71u8, 65u8, 70u8, 73u8, 32u8, 84u8, 79u8, 75u8, 69u8, 78u8],
            symbol: vec![71u8, 65u8, 70u8, 73u8],
            decimals: 18,
            id: 1,
        };
        let gaki: Token = Token {
            name: vec![71u8, 65u8, 75u8, 73u8, 32u8, 84u8, 79u8, 75u8, 69u8, 78u8],
            symbol: vec![71u8, 65u8, 75u8, 73u8],
            decimals: 18,
            id: 2,
        };
        assert(gafi.name@ =~= gafi_name());
        assert(gafi.symbol@ =~= gafi_symbol());
        assert(gaki.name@ =~= gaki_name());
        assert(gaki.symbol@ =~= gaki_symbol());
        match token {
            NativeToken::GAFI => gafi,
            NativeToken::GAKI => gaki,
        }
    }
}

/// The unit of a native token, as its number of decimals.
pub fn unit(token: NativeToken) -> (r: u128)
    ensures
        r == token_spec(token).2,
{
    GafiCurrency::token_info(token).decimals as u128
}

} // verus!
