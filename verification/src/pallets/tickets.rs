//! The pool hub's ticket storage: a double map from (account, pool id) to
//! ticket info, held in the storage map of `crate::storage` keyed by the
//! pair, with what a double map adds: counting and clearing, in storage
//! order, the entries of one account.

use vstd::prelude::*;
use crate::primitives::constant::ID;
use crate::primitives::ticket::TicketInfo;
use crate::storage::{kv_insert, kv_lookup, kv_remove, kv_unique, KeyEntry};
use crate::support::{bytes32_eq, AccountId};

verus! {

/// One stored ticket: the key (account, pool id) and its info.
pub type TicketEntry = KeyEntry<(AccountId, ID), TicketInfo>;

/// No key occurs twice.
pub open spec fn keys_unique(s: Seq<TicketEntry>) -> bool {
    kv_unique(s)
}

/// The ticket stored under (account, pool id).
pub open spec fn lookup(s: Seq<TicketEntry>, account: AccountId, pool_id: ID) -> Option<TicketInfo> {
    kv_lookup(s, (account, pool_id))
}

/// Storing a ticket: an existing key keeps its place, a new key goes last.
pub open spec fn insert_entry(
    s: Seq<TicketEntry>,
    account: AccountId,
    pool_id: ID,
    info: TicketInfo,
) -> Seq<TicketEntry> {
    kv_insert(s, (account, pool_id), info)
}

/// Removing a ticket; nothing changes when it is not stored.
pub open spec fn remove_entry(s: Seq<TicketEntry>, account: AccountId, pool_id: ID) -> Seq<TicketEntry> {
    kv_remove(s, (account, pool_id))
}

/// How many entries belong to an account.
pub open spec fn count_of(s: Seq<TicketEntry>, account: AccountId) -> nat
    decreases s.len(),
{
    if s.len() == 0 {
        0
    } else {
        count_of(s.drop_last(), account) + if s.last().key.0 == account {
            1nat
        } else {
            0nat
        }
    }
}

/// The entries left after removing, in storage order, the first `limit`
/// entries of an account.
pub open spec fn clear_prefix_seq(s: Seq<TicketEntry>, account: AccountId, limit: nat) -> Seq<
    TicketEntry,
>
    decreases s.len(),
{
    if s.len() == 0 {
        s
    } else {
        let prev = clear_prefix_seq(s.drop_last(), account, limit);
        if s.last().key.0 == account && count_of(s.drop_last(), account) < limit {
            prev
        } else {
            prev.push(s.last())
        }
    }
}

/// How many entries belong to an account.
pub fn count_entries(s: &Vec<TicketEntry>, account: &AccountId) -> (r: usize)
    ensures
        r == count_of(s@, *account),
{
    let mut count: usize = 0;
    let mut i: usize = 0;
    while i < s.len()
        invariant
            0 <= i <= s.len(),
            count == count_of(s@.take(i as int), *account),
            count <= i,
        decreases s.len() - i,
    {
        assert(s@.take(i + 1).drop_last() =~= s@.take(i as int));
        if bytes32_eq(&s[i].key.0, account) {
            count = count + 1;
        }
        i = i + 1;
    }
    assert(s@.take(s.len() as int) =~= s@);
    count
}

/// Removing, in storage order, the first `limit` entries of an account.
pub fn clear_prefix_exec(s: &mut Vec<TicketEntry>, account: &AccountId, limit: u32)
    requires
        keys_unique(old(s)@),
    ensures
        final(s)@ == clear_prefix_seq(old(s)@, *account, limit as nat),
        keys_unique(final(s)@),
{
    let ghost orig = s@;
    let mut kept: Vec<TicketEntry> = Vec::new();
    let mut removed: u32 = 0;
    let ghost mut idx: Seq<int> = Seq::empty();
    let mut i: usize = 0;
    while i < s.len()
        invariant
            0 <= i <= s.len(),
            s@ == orig,
            keys_unique(orig),
            kept@ == clear_prefix_seq(orig.take(i as int), *account, limit as nat),
            removed as nat == if count_of(orig.take(i as int), *account) < limit as nat {
                count_of(orig.take(i as int), *account)
            } else {
                limit as nat
            },
            idx.len() == kept@.len(),
            forall|k: int| 0 <= k < idx.len() ==> 0 <= #[trigger] idx[k] < i,
            forall|k1: int, k2: int|
                0 <= k1 < k2 < idx.len() ==> #[trigger] idx[k1] < #[trigger] idx[k2],
            forall|k: int| 0 <= k < idx.len() ==> kept@[k] == orig[#[trigger] idx[k]],
        decreases s.len() - i,
    {
        let ghost pre = orig.take(i as int);
        assert(orig.take(i + 1).drop_last() =~= pre);
        assert(orig.take(i + 1).last() == orig[i as int]);
        let e = s[i];
        if bytes32_eq(&e.key.0, account) && removed < limit {
            removed = removed + 1;
        } else {
            kept.push(e);
            proof {
                idx = idx.push(i as int);
            }
        }
        i = i + 1;
    }
    assert(orig.take(s.len() as int) =~= orig);
    proof {
        assert forall|a: int, b: int|
            0 <= a < kept@.len() && 0 <= b < kept@.len() && a != b implies (#[trigger] kept@[a]).key != (
            #[trigger] kept@[b]).key by {
            if a < b {
                assert(idx[a] < idx[b]);
            } else {
                assert(idx[b] < idx[a]);
            }
            assert(kept@[a] == orig[idx[a]]);
            assert(kept@[b] == orig[idx[b]]);
        }
    }
    *s = kept;
}

} // verus!
