//! Whitelisting for sponsored pools: a pool owner publishes a URL that
//! vouches for players, players apply, and an approval admits them to the
//! pool.

use vstd::prelude::*;
use vstd::utf8::{decode_utf8, valid_utf8};
use crate::codec::{encode_account, hex_lower, to_hex, utf8_to_string};
use crate::primitives::constant::ID;
use crate::primitives::custom_services::CustomPool;
use crate::primitives::whitelist::WhitelistPool;
use crate::storage::{
    kv_contains, kv_find, kv_has, kv_insert, kv_insert_exec, kv_lookup, kv_remove, kv_remove_exec,
    kv_unique, KeyEntry,
};
use crate::support::{
    bytes32_eq, ensure_signed, AccountId, Balance, CurrencyOp, DispatchError, DispatchResult, Origin,
};

verus! {

/// The key type of the offchain worker's signing key: the bytes "gafi".
pub const KEY_TYPE: [u8; 4] = [103u8, 97u8, 102u8, 105u8];

/// The priority of the unsigned approvals the offchain worker submits.
pub const UNSIGNED_TXS_PRIORITY: u64 = 10;

#[derive(Clone, Copy, Debug, PartialEq, Eq, Structural)]
pub enum Error {
    NoneValue,
    StorageOverflow,
    NotWhitelist,
    AlreadyWhitelist,
    NotPoolOwner,
    PoolNotFound,
    PoolNotWhitelist,
    URLTooLong,
    AlreadyJoined,
}

/// The name of an error, as the runtime reports it.
pub open spec fn error_name(e: Error) -> &'static str {
    match e {
        Error::NoneValue => "NoneValue",
        Error::StorageOverflow => "StorageOverflow",
        Error::NotWhitelist => "NotWhitelist",
        Error::AlreadyWhitelist => "AlreadyWhitelist",
        Error::NotPoolOwner => "NotPoolOwner",
        Error::PoolNotFound => "PoolNotFound",
        Error::PoolNotWhitelist => "PoolNotWhitelist",
        Error::URLTooLong => "URLTooLong",
        Error::AlreadyJoined => "AlreadyJoined",
    }
}

impl Error {
    pub fn as_str(&self) -> (r: &'static str)
        ensures
            r == error_name(*self),
    {
        match self {
            Error::NoneValue => "NoneValue",
            Error::StorageOverflow => "StorageOverflow",
            Error::NotWhitelist => "NotWhitelist",
            Error::AlreadyWhitelist => "AlreadyWhitelist",
            Error::NotPoolOwner => "NotPoolOwner",
            Error::PoolNotFound => "PoolNotFound",
            Error::PoolNotWhitelist => "PoolNotWhitelist",
            Error::URLTooLong => "URLTooLong",
            Error::AlreadyJoined => "AlreadyJoined",
        }
    }
}

#[derive(Clone, Debug, PartialEq, Eq)]
pub enum Event {
    SomethingStored(u32, AccountId),
    Whitelisted { sender: AccountId, pool_id: ID },
    WhitelistEnabled { pool_id: ID, url: Vec<u8> },
    WhitelistChanged { pool_id: ID, url: Vec<u8> },
    WhitelistWithdrew { pool_id: ID },
}

/// Why fetching a verdict failed.
#[derive(Clone, Copy, Debug, PartialEq, Eq, Structural)]
pub enum HttpError {
    DeadlineReached,
    IoError,
    Unknown,
}

/// The verdict source of a pool: its URL and the deposit reserved for it.
#[derive(Clone, Debug, PartialEq, Eq)]
pub struct WhitelistSource {
    pub url: Vec<u8>,
    pub deposit: Balance,
}

/// The unsigned call that approves a vouched-for player.
#[derive(Clone, Copy, Debug, PartialEq, Eq)]
pub struct ApproveWhitelistUnsigned {
    pub player: AccountId,
    pub pool_id: ID,
}

/// A verdict request: the player, the pool, and the URL to ask.
#[derive(Clone, Debug, PartialEq, Eq)]
pub struct VerificationRequest {
    pub player: AccountId,
    pub pool_id: ID,
    pub api: String,
}

/// The abstract state of the whitelist pallet.
pub struct WhitelistState {
    pub whitelist: Seq<KeyEntry<ID, ID>>,
    pub sources: Seq<KeyEntry<ID, WhitelistSource>>,
    pub max_whitelist_length: u32,
    pub whitelist_fee: Balance,
    pub events: Seq<Event>,
}

impl WhitelistState {
    pub open spec fn wf(self) -> bool {
        kv_unique(self.whitelist) && kv_unique(self.sources)
    }
}

/// The whitelist pallet's storage and configuration.
pub struct Pallet {
    whitelist: Vec<KeyEntry<ID, ID>>,
    whitelist_source: Vec<KeyEntry<ID, WhitelistSource>>,
    max_whitelist_length: u32,
    whitelist_fee: Balance,
    events: Vec<Event>,
}

impl View for Pallet {
    type V = WhitelistState;

    closed spec fn view(&self) -> WhitelistState {
        WhitelistState {
            whitelist: self.whitelist@,
            sources: self.whitelist_source@,
            max_whitelist_length: self.max_whitelist_length,
            whitelist_fee: self.whitelist_fee,
            events: self.events@,
        }
    }
}

pub open spec fn owner_check_spec(owner: Option<AccountId>, sender: AccountId) -> Result<(), Error> {
    match owner {
        Some(o) => if o == sender {
            Ok(())
        } else {
            Err(Error::NotPoolOwner)
        },
        None => Err(Error::PoolNotFound),
    }
}

pub open spec fn is_whitelist_player_spec(st: WhitelistState, player: AccountId, pool_id: ID) -> bool {
    kv_lookup(st.whitelist, player) == Some(pool_id)
}

pub open spec fn insert_whitelist_spec(
    st: WhitelistState,
    pool_id: ID,
    player: AccountId,
    pool_exists: bool,
    player_joined: bool,
) -> Result<(), Error> {
    if !pool_exists {
        Err(Error::PoolNotFound)
    } else if !kv_has(st.sources, pool_id) {
        Err(Error::PoolNotWhitelist)
    } else if is_whitelist_player_spec(st, player, pool_id) {
        Err(Error::AlreadyWhitelist)
    } else if player_joined {
        Err(Error::AlreadyJoined)
    } else {
        Ok(())
    }
}

/// Whether `sender` may approve `player` for `pool_id`, given the owner the
/// sponsored pool reports: only the owner, and only an applicant for it.
pub open spec fn approve_check_spec(
    st: WhitelistState,
    sender: AccountId,
    player: AccountId,
    pool_id: ID,
    owner: Option<AccountId>,
) -> DispatchResult {
    match owner_check_spec(owner, sender) {
        Err(e) => Err(DispatchError::Whitelist(e)),
        Ok(_) => if is_whitelist_player_spec(st, player, pool_id) {
            Ok(())
        } else {
            Err(DispatchError::Whitelist(Error::NotWhitelist))
        },
    }
}

/// How recording an application ends, given whether the pool exists and
/// whether the player already joined it.
pub open spec fn insert_whitelist_outcome(
    before: WhitelistState,
    after: WhitelistState,
    pool_id: ID,
    player: AccountId,
    pool_exists: bool,
    player_joined: bool,
    r: Result<(), &'static str>,
) -> bool {
    match insert_whitelist_spec(before, pool_id, player, pool_exists, player_joined) {
        Ok(_) => r is Ok && after == (WhitelistState {
            whitelist: kv_insert(before.whitelist, player, pool_id),
            ..before
        }),
        Err(e) => r == Err::<(), &'static str>(error_name(e)) && after == before,
    }
}

/// The verdict URL of a player for a pool.
pub open spec fn api_spec(link: Seq<char>, pool_id: ID, player: AccountId) -> Seq<char> {
    link + "?pool_id="@ + hex_lower(pool_id@) + "&address="@ + hex_lower(player@)
}

/// The URL of a pool's source, when one is stored and decodes as UTF-8.
pub open spec fn url_spec(st: WhitelistState, pool_id: ID) -> Option<Seq<char>> {
    match kv_lookup(st.sources, pool_id) {
        Some(src) => if valid_utf8(src.url@) {
            Some(decode_utf8(src.url@))
        } else {
            None
        },
        None => None,
    }
}

/// The verdict requests for the applications in `apps`, in storage order:
/// one per application whose pool has a readable URL.
pub open spec fn requests_spec(st: WhitelistState, apps: Seq<KeyEntry<ID, ID>>) -> Seq<(AccountId, ID, Seq<char>)>
    decreases apps.len(),
{
    if apps.len() == 0 {
        Seq::empty()
    } else {
        let prev = requests_spec(st, apps.drop_last());
        let a = apps.last();
        match url_spec(st, a.value) {
            Some(url) => prev.push((a.key, a.value, api_spec(url, a.value, a.key))),
            None => prev,
        }
    }
}

/// A response vouches for the player when it is a 200 whose body reads
/// exactly "true"; any other status, or a body that is not UTF-8, is an
/// error.
pub open spec fn verdict_spec(code: u16, body: Seq<u8>) -> Result<bool, HttpError> {
    if code != 200 {
        Err(HttpError::Unknown)
    } else if !valid_utf8(body) {
        Err(HttpError::Unknown)
    } else {
        Ok(decode_utf8(body) == "true"@)
    }
}

impl Pallet {
    /// An empty pallet with its configuration.
    pub fn new(max_whitelist_length: u32, whitelist_fee: Balance) -> (r: Self)
        ensures
            r@ == (WhitelistState {
                whitelist: Seq::empty(),
                sources: Seq::empty(),
                max_whitelist_length,
                whitelist_fee,
                events: Seq::empty(),
            }),
            r@.wf(),
    {
        let r = Pallet {
            whitelist: Vec::new(),
            whitelist_source: Vec::new(),
            max_whitelist_length,
            whitelist_fee,
            events: Vec::new(),
        };
        assert(r.whitelist@ =~= Seq::<KeyEntry<ID, ID>>::empty());
        assert(r.whitelist_source@ =~= Seq::<KeyEntry<ID, WhitelistSource>>::empty());
        r
    }

    /// The pool a player applied for.
    pub fn whitelist(&self, player: AccountId) -> (r: Option<ID>)
        requires
            self@.wf(),
        ensures
            r == kv_lookup(self@.whitelist, player),
    {
        match kv_find(&self.whitelist, &player) {
            Some(i) => Some(self.whitelist[i].value),
            None => None,
        }
    }

    /// The stored source of a pool: its URL bytes and deposit.
    pub fn whitelist_source(&self, pool_id: ID) -> (r: Option<(Vec<u8>, Balance)>)
        requires
            self@.wf(),
        ensures
            match kv_lookup(self@.sources, pool_id) {
                Some(src) => r matches Some((url, deposit)) && url@ == src.url@ && deposit == src.deposit,
                None => r is None,
            },
    {
        match kv_find(&self.whitelist_source, &pool_id) {
            Some(i) => {
                let src = &self.whitelist_source[i];
                let url = vstd::slice::slice_to_vec(src.value.url.as_slice());
                Some((url, src.value.deposit))
            },
            None => None,
        }
    }

    /// The events deposited so far, oldest first.
    pub fn events(&self) -> (r: &Vec<Event>)
        ensures
            r@ == self@.events,
    {
        &self.events
    }

    /// Whether `sender` owns the pool, given the owner the sponsored pool
    /// reports for it.
    pub fn is_pool_owner(pool_id: ID, sender: AccountId, owner: Option<AccountId>) -> (r: Result<
        (),
        Error,
    >)
        ensures
            r == owner_check_spec(owner, sender),
    {
        if let Some(owner) = owner {
            if bytes32_eq(&owner, &sender) {
                return Ok(());
            } else {
                return Err(Error::NotPoolOwner);
            }
        }
        Err(Error::PoolNotFound)
    }

    /// Whether `player` applied for `pool_id`.
    pub fn is_whitelist_player(&self, player: &AccountId, pool_id: ID) -> (r: bool)
        requires
            self@.wf(),
        ensures
            r == is_whitelist_player_spec(self@, *player, pool_id),
    {
        if let Some(id) = self.whitelist(*player) {
            if bytes32_eq(&id, &pool_id) {
                return true;
            }
        }
        false
    }

    /// Whether a pool publishes a verdict source.
    pub fn is_whitelist(&self, pool_id: ID) -> (r: bool)
        requires
            self@.wf(),
        ensures
            r == kv_has(self@.sources, pool_id),
    {
        kv_contains(&self.whitelist_source, &pool_id)
    }

    /// Records `player`'s application for `pool_id`, given whether the pool
    /// exists and whether the player already joined it.
    pub fn insert_whitelist(&mut self, pool_id: ID, player: AccountId, pool_exists: bool, player_joined: bool) -> (r:
        Result<(), &'static str>)
        requires
            old(self)@.wf(),
        ensures
            final(self)@.wf(),
            match insert_whitelist_spec(old(self)@, pool_id, player, pool_exists, player_joined) {
                Ok(_) => r is Ok && final(self)@ == (WhitelistState {
                    whitelist: kv_insert(old(self)@.whitelist, player, pool_id),
                    ..old(self)@
                }),
                Err(e) => r == Err::<(), &'static str>(error_name(e)) && final(self)@ == old(self)@,
            },
    {
        if !pool_exists {
            return Err(Error::PoolNotFound.as_str());
        }
        if !self.is_whitelist(pool_id) {
            return Err(Error::PoolNotWhitelist.as_str());
        }
        if self.is_whitelist_player(&player, pool_id) {
            return Err(Error::AlreadyWhitelist.as_str());
        }
        if player_joined {
            return Err(Error::AlreadyJoined.as_str());
        }
        kv_insert_exec(&mut self.whitelist, player, pool_id);
        Ok(())
    }

    /// A signed player applies for `pool_id`: the sponsored pool is asked
    /// whether the pool exists and the pool hub whether the player already
    /// joined it; the outcome of the application is not reported.
    pub fn apply_whitelist<P: CustomPool<AccountId>, W: WhitelistPool<AccountId>>(
        &mut self,
        origin: Origin,
        pool_id: ID,
        sponsored: &P,
        pool: &W,
    ) -> (r: DispatchResult)
        requires
            old(self)@.wf(),
        ensures
            final(self)@.wf(),
            match origin {
                Origin::Signed(sender) => r is Ok && exists|answer: Result<(), &'static str>|
                    #[trigger] insert_whitelist_outcome(
                        old(self)@,
                        final(self)@,
                        pool_id,
                        sender,
                        sponsored.spec_is_pool(pool_id),
                        pool.spec_joined(sender, pool_id),
                        answer,
                    ),
                _ => r == Err::<(), DispatchError>(DispatchError::BadOrigin) && final(self)@ == old(self)@,
            },
    {
        let sender = ensure_signed(origin)?;
        let pool_exists = sponsored.is_pool(pool_id);
        let player_joined = pool.is_joined_pool(sender, pool_id);
        let answer = self.insert_whitelist(pool_id, sender, pool_exists, player_joined);
        assert(insert_whitelist_outcome(
            old(self)@,
            self@,
            pool_id,
            sender,
            pool_exists,
            player_joined,
            answer,
        ));
        Ok(())
    }

    /// Whether `sender` may approve `player` for `pool_id`, given the owner
    /// the sponsored pool reports.
    pub fn approve_whitelist_check(&self, sender: AccountId, player: AccountId, pool_id: ID, owner: Option<
        AccountId,
    >) -> (r: DispatchResult)
        requires
            self@.wf(),
        ensures
            r == approve_check_spec(self@, sender, player, pool_id, owner),
    {
        match Self::is_pool_owner(pool_id, sender, owner) {
            Err(e) => return Err(DispatchError::Whitelist(e)),
            Ok(_) => {},
        }
        if !self.is_whitelist_player(&player, pool_id) {
            return Err(DispatchError::Whitelist(Error::NotWhitelist));
        }
        Ok(())
    }

    /// The pool owner admits an applicant: the pool is asked to take the
    /// player in (its answer is not reported), the application is removed
    /// and `Whitelisted` deposited.
    pub fn approve_whitelist<P: CustomPool<AccountId>, W: WhitelistPool<AccountId>>(
        &mut self,
        origin: Origin,
        player: AccountId,
        pool_id: ID,
        sponsored: &P,
        pool: &mut W,
    ) -> (r: DispatchResult)
        requires
            old(self)@.wf(),
        ensures
            final(self)@.wf(),
            match origin {
                Origin::Signed(sender) => match approve_check_spec(
                    old(self)@,
                    sender,
                    player,
                    pool_id,
                    sponsored.spec_pool_owner(pool_id),
                ) {
                    Err(e) => r == Err::<(), DispatchError>(e) && final(self)@ == old(self)@ && *final(pool)
                        == *old(pool),
                    Ok(_) => {
                        &&& r is Ok
                        &&& exists|answer: Result<(), &'static str>|
                            #[trigger] old(pool).spec_join_pool(*final(pool), player, pool_id, answer)
                        &&& final(self)@ == (WhitelistState {
                            whitelist: kv_remove(old(self)@.whitelist, player),
                            events: old(self)@.events.push(Event::Whitelisted { sender: player, pool_id }),
                            ..old(self)@
                        })
                    },
                },
                _ => r == Err::<(), DispatchError>(DispatchError::BadOrigin) && final(self)@ == old(self)@
                    && *final(pool) == *old(pool),
            },
    {
        let sender = ensure_signed(origin)?;
        self.approve_whitelist_check(sender, player, pool_id, sponsored.get_pool_owner(pool_id))?;
        let answer = pool.join_pool(player, pool_id);
        assert(old(pool).spec_join_pool(*pool, player, pool_id, answer));
        kv_remove_exec(&mut self.whitelist, &player);
        self.events.push(Event::Whitelisted { sender: player, pool_id });
        Ok(())
    }

    /// The owner publishes (or replaces) the verdict URL of a pool. The
    /// first publication reserves the configured fee from the sender, which
    /// is returned as the operation to carry out; a URL longer than the
    /// configured limit is refused.
    pub fn enable_whitelist(&mut self, origin: Origin, pool_id: ID, url: Vec<u8>) -> (r: Result<
        Option<CurrencyOp>,
        DispatchError,
    >)
        requires
            old(self)@.wf(),
        ensures
            final(self)@.wf(),
            match origin {
                Origin::Signed(sender) => if url@.len() > old(self)@.max_whitelist_length {
                    r == Err::<Option<CurrencyOp>, DispatchError>(
                        DispatchError::Whitelist(Error::URLTooLong),
                    ) && final(self)@ == old(self)@
                } else {
                    let fresh = !kv_has(old(self)@.sources, pool_id);
                    &&& r == Ok::<Option<CurrencyOp>, DispatchError>(
                        if fresh {
                            Some(CurrencyOp::Reserve { who: sender, amount: old(self)@.whitelist_fee })
                        } else {
                            None
                        },
                    )
                    &&& final(self)@.whitelist == old(self)@.whitelist
                    &&& final(self)@.max_whitelist_length == old(self)@.max_whitelist_length
                    &&& final(self)@.whitelist_fee == old(self)@.whitelist_fee
                    &&& final(self)@.events == old(self)@.events.push(
                        if fresh {
                            Event::WhitelistEnabled { pool_id, url }
                        } else {
                            Event::WhitelistChanged { pool_id, url }
                        },
                    )
                    &&& kv_lookup(final(self)@.sources, pool_id) matches Some(src) && src.url@ == url@
                        && src.deposit == old(self)@.whitelist_fee
                    &&& forall|other: ID|
                        other != pool_id ==> kv_lookup(final(self)@.sources, other) == kv_lookup(
                            old(self)@.sources,
                            other,
                        )
                },
                _ => r == Err::<Option<CurrencyOp>, DispatchError>(DispatchError::BadOrigin)
                    && final(self)@ == old(self)@,
            },
    {
        let sender = ensure_signed(origin)?;
        if url.len() > self.max_whitelist_length as usize {
            return Err(DispatchError::Whitelist(Error::URLTooLong));
        }
        let bounded_url = vstd::slice::slice_to_vec(url.as_slice());
        let deposit = self.whitelist_fee;
        let fresh = !kv_contains(&self.whitelist_source, &pool_id);
        let op = if fresh {
            self.events.push(Event::WhitelistEnabled { pool_id, url });
            Some(CurrencyOp::Reserve { who: sender, amount: deposit })
        } else {
            self.events.push(Event::WhitelistChanged { pool_id, url });
            None
        };
        let ghost before = self.whitelist_source@;
        let src = WhitelistSource { url: bounded_url, deposit };
        kv_insert_exec(&mut self.whitelist_source, pool_id, src);
        proof {
            assert forall|other: ID| other != pool_id implies kv_lookup(self.whitelist_source@, other)
                == kv_lookup(before, other) by {
                crate::storage::lemma_kv_lookup_insert(before, pool_id, src, other);
            }
            crate::storage::lemma_kv_lookup_insert(before, pool_id, src, pool_id);
        }
        Ok(op)
    }

    /// The sender withdraws a pool's verdict source; the deposit stored
    /// with it is returned as the unreserve to carry out.
    pub fn withdraw_whitelist(&mut self, origin: Origin, pool_id: ID) -> (r: Result<CurrencyOp, DispatchError>)
        requires
            old(self)@.wf(),
        ensures
            final(self)@.wf(),
            match origin {
                Origin::Signed(sender) => match kv_lookup(old(self)@.sources, pool_id) {
                    Some(src) => r == Ok::<CurrencyOp, DispatchError>(
                        CurrencyOp::Unreserve { who: sender, amount: src.deposit },
                    ) && final(self)@ == (WhitelistState {
                        sources: kv_remove(old(self)@.sources, pool_id),
                        events: old(self)@.events.push(Event::WhitelistWithdrew { pool_id }),
                        ..old(self)@
                    }),
                    None => r == Err::<CurrencyOp, DispatchError>(
                        DispatchError::Whitelist(Error::PoolNotWhitelist),
                    ) && final(self)@ == old(self)@,
                },
                _ => r == Err::<CurrencyOp, DispatchError>(DispatchError::BadOrigin) && final(self)@
                    == old(self)@,
            },
    {
        let sender = ensure_signed(origin)?;
        let deposit = match kv_find(&self.whitelist_source, &pool_id) {
            Some(i) => self.whitelist_source[i].value.deposit,
            None => return Err(DispatchError::Whitelist(Error::PoolNotWhitelist)),
        };
        kv_remove_exec(&mut self.whitelist_source, &pool_id);
        self.events.push(Event::WhitelistWithdrew { pool_id });
        Ok(CurrencyOp::Unreserve { who: sender, amount: deposit })
    }

    /// The unsigned approval call; it changes nothing.
    pub fn approve_whitelist_unsigned(&mut self, _origin: Origin, _player: AccountId, _pool_id: ID) -> (r:
        DispatchResult)
        ensures
            r is Ok,
            final(self)@ == old(self)@,
    {
        Ok(())
    }

    /// The URL that vouches for `player` in `pool_id`:
    /// `{link}?pool_id={hex}&address={hex}`.
    pub fn get_api(link: &str, pool_id: ID, player: &AccountId) -> (r: String)
        ensures
            r@ == api_spec(link@, pool_id, *player),
    {
        let pool_id_hex: String = to_hex(vstd::array::array_as_slice(&pool_id));
        let address = encode_account(player);
        let hex_address: String = to_hex(address.as_slice());
        let mut uri = link.to_owned();
        uri.append("?pool_id=");
        uri.append(pool_id_hex.as_str());
        uri.append("&address=");
        uri.append(hex_address.as_str());
        uri
    }

    /// A pool's verdict URL, when one is stored and decodes as UTF-8.
    pub fn get_url(&self, pool_id: ID) -> (r: Option<String>)
        requires
            self@.wf(),
        ensures
            match url_spec(self@, pool_id) {
                Some(u) => r matches Some(s) && s@ == u,
                None => r is None,
            },
    {
        match kv_find(&self.whitelist_source, &pool_id) {
            Some(i) => {
                let bytes = vstd::slice::slice_to_vec(self.whitelist_source[i].value.url.as_slice());
                utf8_to_string(bytes)
            },
            None => None,
        }
    }

    /// The verdict requests the offchain worker sends: one per application
    /// whose pool has a readable URL, in storage order.
    pub fn verification_requests(&self) -> (r: Vec<VerificationRequest>)
        requires
            self@.wf(),
        ensures
            r@.len() == requests_spec(self@, self@.whitelist).len(),
            forall|k: int|
                0 <= k < r@.len() ==> ((#[trigger] r@[k]).player, r@[k].pool_id, r@[k].api@)
                    == requests_spec(self@, self@.whitelist)[k],
    {
        let mut r: Vec<VerificationRequest> = Vec::new();
        let mut i: usize = 0;
        while i < self.whitelist.len()
            invariant
                0 <= i <= self.whitelist.len(),
                self@.wf(),
                r@.len() == requests_spec(self@, self@.whitelist.take(i as int)).len(),
                forall|k: int|
                    0 <= k < r@.len() ==> ((#[trigger] r@[k]).player, r@[k].pool_id, r@[k].api@)
                        == requests_spec(self@, self@.whitelist.take(i as int))[k],
            decreases self.whitelist.len() - i,
        {
            assert(self@.whitelist.take(i + 1).drop_last() =~= self@.whitelist.take(i as int));
            let player = self.whitelist[i].key;
            let pool_id = self.whitelist[i].value;
            if let Some(url) = self.get_url(pool_id) {
                let api = Self::get_api(url.as_str(), pool_id, &player);
                r.push(VerificationRequest { player, pool_id, api });
            }
            i = i + 1;
        }
        assert(self@.whitelist.take(self.whitelist.len() as int) =~= self@.whitelist);
        r
    }

    /// Reads a verdict response: a 200 whose body is exactly "true" vouches
    /// for the player.
    pub fn fetch_whitelist(code: u16, body: Vec<u8>) -> (r: Result<bool, HttpError>)
        ensures
            r == verdict_spec(code, body@),
    {
        if code != 200 {
            return Err(HttpError::Unknown);
        }
        let body_str = match utf8_to_string(body) {
            Some(s) => s,
            None => return Err(HttpError::Unknown),
        };
        proof {
            reveal_strlit("true");
        }
        let s = body_str.as_str();
        let verify = s.unicode_len() == 4 && s.get_char(0) == 't' && s.get_char(1) == 'r'
            && s.get_char(2) == 'u' && s.get_char(3) == 'e';
        proof {
            if verify {
                assert(s@ =~= "true"@);
            }
        }
        Ok(verify)
    }

    /// The approval a verdict calls for: the unsigned approval call when
    /// the verdict is `true`, nothing otherwise.
    pub fn verify_and_approve(verify: Result<bool, HttpError>, player: AccountId, pool_id: ID) -> (r:
        Option<ApproveWhitelistUnsigned>)
        ensures
            r == (if verify == Ok::<bool, HttpError>(true) {
                Some(ApproveWhitelistUnsigned { player, pool_id })
            } else {
                None
            }),
    {
        match verify {
            Ok(true) => Some(ApproveWhitelistUnsigned { player, pool_id }),
            _ => None,
        }
    }
}

} // verus!
