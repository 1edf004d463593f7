//! Properties of the whitelist pallet that span its operations.

use vstd::prelude::*;
use crate::pallets::whitelist::{
    insert_whitelist_outcome, insert_whitelist_spec, is_whitelist_player_spec, Error, WhitelistSource,
    WhitelistState,
};
use crate::primitives::constant::ID;
use crate::storage::{kv_has, kv_insert, kv_lookup, kv_remove, lemma_kv_lookup_insert, lemma_kv_lookup_remove};
use crate::support::{AccountId, Balance};

verus! {

/// A recorded application reads back: the player counts as whitelisted for
/// that pool, and every other player's application is unchanged.
pub proof fn law_application_reads_back(st: WhitelistState, player: AccountId, pool_id: ID, other: AccountId)
    requires
        st.wf(),
    ensures
        is_whitelist_player_spec(
            WhitelistState { whitelist: kv_insert(st.whitelist, player, pool_id), ..st },
            player,
            pool_id,
        ),
        other != player ==> kv_lookup(kv_insert(st.whitelist, player, pool_id), other) == kv_lookup(
            st.whitelist,
            other,
        ),
{
    lemma_kv_lookup_insert(st.whitelist, player, pool_id, other);
}

/// An approved player's application is gone, so it cannot be approved
/// twice; other applications stay.
pub proof fn law_approval_consumes_application(
    st: WhitelistState,
    player: AccountId,
    pool_id: ID,
    other: AccountId,
)
    requires
        st.wf(),
    ensures
        !is_whitelist_player_spec(
            WhitelistState { whitelist: kv_remove(st.whitelist, player), ..st },
            player,
            pool_id,
        ),
        other != player ==> kv_lookup(kv_remove(st.whitelist, player), other) == kv_lookup(
            st.whitelist,
            other,
        ),
{
    lemma_kv_lookup_remove(st.whitelist, player, other);
}

/// What a withdrawal unreserves is what enabling stored: the deposit kept
/// with a pool's source is the fee it was enabled with, and after the
/// withdrawal the pool has no source.
pub proof fn law_withdraw_returns_enable_deposit(
    st: WhitelistState,
    pool_id: ID,
    url: Vec<u8>,
    fee: Balance,
)
    requires
        st.wf(),
    ensures
        kv_lookup(kv_insert(st.sources, pool_id, WhitelistSource { url, deposit: fee }), pool_id)
            matches Some(src) && src.deposit == fee,
        kv_lookup(
            kv_remove(kv_insert(st.sources, pool_id, WhitelistSource { url, deposit: fee }), pool_id),
            pool_id,
        ) is None,
{
    let src = WhitelistSource { url, deposit: fee };
    lemma_kv_lookup_insert(st.sources, pool_id, src, pool_id);
    crate::storage::lemma_kv_insert_unique(st.sources, pool_id, src);
    lemma_kv_lookup_remove(kv_insert(st.sources, pool_id, src), pool_id, pool_id);
}

/// An application is refused as `AlreadyWhitelist` only when the player's
/// pending application is for that very pool. A player applying for an
/// existing whitelisted pool it has not applied for and not joined is
/// recorded for it, even with an application for another pool pending,
/// which the new one replaces.
pub proof fn law_application_for_another_pool_is_recorded(
    before: WhitelistState,
    after: WhitelistState,
    pool_id: ID,
    player: AccountId,
    pool_exists: bool,
    player_joined: bool,
    r: Result<(), &'static str>,
)
    requires
        before.wf(),
        insert_whitelist_outcome(before, after, pool_id, player, pool_exists, player_joined, r),
    ensures
        insert_whitelist_spec(before, pool_id, player, pool_exists, player_joined) == Err::<(), Error>(
            Error::AlreadyWhitelist,
        ) ==> kv_lookup(before.whitelist, player) == Some(pool_id),
        pool_exists && kv_has(before.sources, pool_id) && !player_joined && kv_lookup(before.whitelist, player)
            != Some(pool_id) ==> r is Ok && kv_lookup(after.whitelist, player) == Some(pool_id),
{
    lemma_kv_lookup_insert(before.whitelist, player, pool_id, player);
}

} // verus!
