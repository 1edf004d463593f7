//! The faucet: a player with little balance gets a fixed amount from the
//! first genesis account that can pay it, once per cache period.

use vstd::prelude::*;
use crate::primitives::cache::{cache_inserted, Cache};
use crate::primitives::currency::Currency;
use crate::support::{
    bytes32_eq, ensure_signed, AccountId, Balance, CurrencyOp, DispatchError, DispatchResult, Origin,
};

verus! {

#[derive(Clone, Copy, Debug, PartialEq, Eq, Structural)]
pub enum Error {
    NoneValue,
    StorageOverflow,
    TransferToSelf,
    NotEnoughBalance,
    DontBeGreedy,
    PleaseWait,
}

#[derive(Clone, Copy, Debug, PartialEq, Eq)]
pub enum Event {
    SomethingStored(u32, AccountId),
    Transfered(AccountId, AccountId, Balance),
}

/// The abstract state of the faucet.
pub struct FaucetState {
    pub genesis_accounts: Seq<AccountId>,
    pub faucet_amount: Balance,
    pub max_genesis_account: u32,
    pub events: Seq<Event>,
}

impl FaucetState {
    pub open spec fn wf(self) -> bool {
        self.genesis_accounts.len() <= self.max_genesis_account
    }
}

/// The faucet's storage and configuration.
pub struct Pallet {
    genesis_accounts: Vec<AccountId>,
    faucet_amount: Balance,
    max_genesis_account: u32,
    events: Vec<Event>,
}

impl View for Pallet {
    type V = FaucetState;

    closed spec fn view(&self) -> FaucetState {
        FaucetState {
            genesis_accounts: self.genesis_accounts@,
            faucet_amount: self.faucet_amount,
            max_genesis_account: self.max_genesis_account,
            events: self.events@,
        }
    }
}

/// The faucet's admission: no cached claim, and a free balance below a
/// tenth of the faucet amount.
pub open spec fn faucet_check_spec(
    st: FaucetState,
    origin: Origin,
    cached: Option<u128>,
    free_balance: Balance,
) -> Result<AccountId, DispatchError> {
    match origin {
        Origin::Signed(sender) => if cached is Some {
            Err(DispatchError::Faucet(Error::PleaseWait))
        } else if !(free_balance < st.faucet_amount / 10) {
            Err(DispatchError::Faucet(Error::DontBeGreedy))
        } else {
            Ok(sender)
        },
        _ => Err(DispatchError::BadOrigin),
    }
}

/// The faucet's transfers from the `k`-th genesis account on: each account
/// in order transfers the faucet amount to the player until one transfer
/// goes through. The balances after them, and whether one went through.
pub open spec fn payout_from<C: Currency<AccountId>>(st: FaucetState, sender: AccountId, currency: C, k: int) -> (
    C,
    bool,
)
    decreases st.genesis_accounts.len() - k,
{
    if k < 0 || k >= st.genesis_accounts.len() {
        (currency, false)
    } else {
        let (next, answer) = currency.spec_transfer(st.genesis_accounts[k], sender, st.faucet_amount);
        if answer is Ok {
            (next, true)
        } else {
            payout_from(st, sender, next, k + 1)
        }
    }
}

/// The genesis configuration: the accounts that fund the faucet, and the
/// amount it hands out.
pub struct GenesisConfig {
    pub genesis_accounts: Vec<AccountId>,
    pub faucet_amount: Balance,
}

impl Default for GenesisConfig {
    fn default() -> (r: Self)
        ensures
            r.genesis_accounts@.len() == 0,
            r.faucet_amount == 0,
    {
        GenesisConfig { genesis_accounts: Vec::new(), faucet_amount: 0 }
    }
}

impl GenesisConfig {
    /// The faucet at genesis: the configured accounts appended in order
    /// while the bound allows, the rest dropped.
    pub fn build(&self, max_genesis_account: u32) -> (r: Pallet)
        ensures
            r@.wf(),
            r@ == (FaucetState {
                genesis_accounts: if self.genesis_accounts@.len() <= max_genesis_account {
                    self.genesis_accounts@
                } else {
                    self.genesis_accounts@.take(max_genesis_account as int)
                },
                faucet_amount: self.faucet_amount,
                max_genesis_account,
                events: Seq::empty(),
            }),
    {
        let mut accounts: Vec<AccountId> = Vec::new();
        let mut i: usize = 0;
        while i < self.genesis_accounts.len()
            invariant
                0 <= i <= self.genesis_accounts.len(),
                accounts@ == self.genesis_accounts@.take(
                    if i <= max_genesis_account {
                        i as int
                    } else {
                        max_genesis_account as int
                    },
                ),
            decreases self.genesis_accounts.len() - i,
        {
            if accounts.len() < max_genesis_account as usize {
                accounts.push(self.genesis_accounts[i]);
            }
            i = i + 1;
            assert(accounts@ =~= self.genesis_accounts@.take(
                if i <= max_genesis_account {
                    i as int
                } else {
                    max_genesis_account as int
                },
            ));
        }
        assert(self.genesis_accounts@.take(self.genesis_accounts@.len() as int) =~= self.genesis_accounts@);
        let r = Pallet {
            genesis_accounts: accounts,
            faucet_amount: self.faucet_amount,
            max_genesis_account,
            events: Vec::new(),
        };
        assert(r.events@ =~= Seq::<Event>::empty());
        r
    }
}

impl Pallet {
    pub fn genesis_account(&self) -> (r: &Vec<AccountId>)
        ensures
            r@ == self@.genesis_accounts,
    {
        &self.genesis_accounts
    }

    pub fn faucet_amount(&self) -> (r: Balance)
        ensures
            r == self@.faucet_amount,
    {
        self.faucet_amount
    }

    /// The events deposited so far, oldest first.
    pub fn events(&self) -> (r: &Vec<Event>)
        ensures
            r@ == self@.events,
    {
        &self.events
    }

    /// Whether a signed player may draw from the faucet, given its cached
    /// claim and its free balance; the player when it may.
    pub fn faucet_check(&self, origin: Origin, cached: Option<u128>, free_balance: Balance) -> (r: Result<
        AccountId,
        DispatchError,
    >)
        ensures
            r == faucet_check_spec(self@, origin, cached, free_balance),
    {
        let sender = ensure_signed(origin)?;
        if cached.is_some() {
            return Err(DispatchError::Faucet(Error::PleaseWait));
        }
        if !(free_balance < self.faucet_amount / 10) {
            return Err(DispatchError::Faucet(Error::DontBeGreedy));
        }
        Ok(sender)
    }

    /// A signed player draws from the faucet: admitted when it has no
    /// cached claim and a free balance below a tenth of the faucet amount,
    /// it is paid by the first genesis account, in order, whose transfer
    /// goes through, and its claim is then cached; when no transfer goes
    /// through the faucet is out. A refusal transfers nothing.
    pub fn faucet<K: Cache<AccountId, AccountId, u128>, C: Currency<AccountId>>(
        &self,
        origin: Origin,
        cache: &mut K,
        currency: &mut C,
    ) -> (r: DispatchResult)
        ensures
            match origin {
                Origin::Signed(sender) => match faucet_check_spec(
                    self@,
                    origin,
                    old(cache).spec_get(sender, sender),
                    old(currency).spec_free_balance(sender),
                ) {
                    Err(e) => r == Err::<(), DispatchError>(e) && *final(cache) == *old(cache) && *final(currency)
                        == *old(currency),
                    Ok(_) => {
                        let (after, paid) = payout_from(self@, sender, *old(currency), 0);
                        &&& *final(currency) == after
                        &&& paid ==> r is Ok && cache_inserted(*old(cache), *final(cache), sender, sender, self@.faucet_amount)
                        &&& !paid ==> r == Err::<(), DispatchError>(DispatchError::Other("Out of Faucet"))
                            && *final(cache) == *old(cache)
                    },
                },
                _ => r == Err::<(), DispatchError>(DispatchError::BadOrigin) && *final(cache) == *old(cache)
                    && *final(currency) == *old(currency),
            },
    {
        let sender = ensure_signed(origin)?;
        let cached = Self::get_cache(cache, sender);
        let free_balance = currency.free_balance(&sender);
        self.faucet_check(origin, cached, free_balance)?;
        let mut i: usize = 0;
        while i < self.genesis_accounts.len()
            invariant
                0 <= i <= self.genesis_accounts.len(),
                *cache == *old(cache),
                origin == Origin::Signed(sender),
                faucet_check_spec(
                    self@,
                    origin,
                    old(cache).spec_get(sender, sender),
                    old(currency).spec_free_balance(sender),
                ) is Ok,
                payout_from(self@, sender, *old(currency), 0) == payout_from(self@, sender, *currency, i as int),
            decreases self.genesis_accounts.len() - i,
        {
            let ghost before = *currency;
            let answer = currency.transfer(&self.genesis_accounts[i], &sender, self.faucet_amount);
            assert(payout_from(self@, sender, before, i as int) == if answer is Ok {
                (*currency, true)
            } else {
                payout_from(self@, sender, *currency, i + 1)
            });
            if answer.is_ok() {
                Self::insert_cache(cache, sender, self.faucet_amount);
                return Ok(());
            }
            i = i + 1;
        }
        Err(Self::out_of_faucet())
    }

    /// The error of a faucet that ran out of genesis accounts.
    pub fn out_of_faucet() -> (r: DispatchError)
        ensures
            r == DispatchError::Other("Out of Faucet"),
    {
        DispatchError::Other("Out of Faucet")
    }

    /// Records a served player in the cache, keyed by the player twice.
    pub fn insert_cache<K: Cache<AccountId, AccountId, u128>>(cache: &mut K, sender: AccountId, faucet_amount: Balance) -> (r:
        Option<()>)
        ensures
            r == Some(()),
            cache_inserted(*old(cache), *final(cache), sender, sender, faucet_amount),
    {
        let value: u128 = faucet_amount;
        cache.insert(sender, sender, value);
        Some(())
    }

    /// The cached claim of a player.
    pub fn get_cache<K: Cache<AccountId, AccountId, u128>>(cache: &K, sender: AccountId) -> (r: Option<u128>)
        ensures
            r == cache.spec_get(sender, sender),
    {
        if let Some(faucet_cache) = cache.get(sender, sender) {
            return Some(faucet_cache);
        }
        None
    }

    /// A signed player with more than `amount` free donates it to the first
    /// genesis account, which must not be the player; the transfer is
    /// returned as the operation to carry out.
    pub fn donate(&mut self, origin: Origin, amount: Balance, free_balance: Balance) -> (r: Result<
        CurrencyOp,
        DispatchError,
    >)
        requires
            origin is Signed && free_balance > amount ==> old(self)@.genesis_accounts.len() > 0,
        ensures
            match origin {
                Origin::Signed(sender) => if !(free_balance > amount) {
                    r == Err::<CurrencyOp, DispatchError>(
                        DispatchError::Faucet(Error::NotEnoughBalance),
                    ) && final(self)@ == old(self)@
                } else if old(self)@.genesis_accounts[0] == sender {
                    r == Err::<CurrencyOp, DispatchError>(
                        DispatchError::Faucet(Error::TransferToSelf),
                    ) && final(self)@ == old(self)@
                } else {
                    r == Ok::<CurrencyOp, DispatchError>(
                        CurrencyOp::Transfer { from: sender, to: old(self)@.genesis_accounts[0], amount },
                    ) && final(self)@ == (FaucetState {
                        events: old(self)@.events.push(
                            Event::Transfered(sender, old(self)@.genesis_accounts[0], amount),
                        ),
                        ..old(self)@
                    })
                },
                _ => r == Err::<CurrencyOp, DispatchError>(DispatchError::BadOrigin) && final(self)@
                    == old(self)@,
            },
    {
        let sender = ensure_signed(origin)?;
        if !(free_balance > amount) {
            return Err(DispatchError::Faucet(Error::NotEnoughBalance));
        }
        let first = self.genesis_accounts[0];
        if bytes32_eq(&first, &sender) {
            return Err(DispatchError::Faucet(Error::TransferToSelf));
        }
        self.events.push(Event::Transfered(sender, first, amount));
        Ok(CurrencyOp::Transfer { from: sender, to: first, amount })
    }
}

/// A served player is refused while its claim is cached: `faucet` leaves
/// the player's claim in the cache, and a draw that finds any claim there
/// is answered `PleaseWait`, on which `faucet` transfers nothing and leaves
/// the cache as it was.
pub proof fn law_served_player_waits<K: Cache<AccountId, AccountId, u128>>(
    st: FaucetState,
    sender: AccountId,
    cache: K,
    free_balance: Balance,
)
    requires
        cache.spec_get(sender, sender) is Some,
    ensures
        faucet_check_spec(st, Origin::Signed(sender), cache.spec_get(sender, sender), free_balance) == Err::<
            AccountId,
            DispatchError,
        >(DispatchError::Faucet(Error::PleaseWait)),
{
}

} // verus!
