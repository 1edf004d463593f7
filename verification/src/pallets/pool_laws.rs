//! Properties of the pool hub that span its operations.

use vstd::prelude::*;
use crate::pallets::pool::{
    blocks_join, create_ticket_spec, finalized_mark, join_check_spec, join_complete_spec, joined, renewed,
    leave_outcome, ticket_type_spec, usable, Error, PoolServices, PoolState,
};
use crate::primitives::ticket::TicketType;
use crate::support::{DispatchError, DispatchResult};
use crate::pallets::tickets::{
    clear_prefix_seq, count_of, insert_entry, keys_unique, lookup, remove_entry, TicketEntry,
};
use crate::storage::{kv_has, kv_index, lemma_kv_lookup_insert, lemma_kv_lookup_remove};
use crate::primitives::constant::ID;
use crate::primitives::pool::Service;
use crate::primitives::ticket::{ticket_pool, TicketInfo};
use crate::support::{AccountId, H160};

verus! {

/// A player whose ticket for `pool_id` was just stored counts as joined to
/// `pool_id`, so a second `join` of that pool is refused.
pub proof fn law_stored_ticket_blocks_rejoin(
    s: Seq<TicketEntry>,
    sender: AccountId,
    pool_id: ID,
    t: TicketInfo,
)
    requires
        keys_unique(s),
        ticket_pool(t.ticket_type) == pool_id,
    ensures
        joined(insert_entry(s, sender, pool_id, t), sender, pool_id),
{
    let u = insert_entry(s, sender, pool_id, t);
    let e = TicketEntry { key: (sender, pool_id), value: t };
    let pos = if kv_has(s, (sender, pool_id)) {
        kv_index(s, (sender, pool_id))
    } else {
        s.len() as int
    };
    if kv_has(s, (sender, pool_id)) {
        assert(s[pos].key == (sender, pool_id));
    }
    assert(u[pos] == e);
    assert(blocks_join(u[pos].value.ticket_type, pool_id));
}

/// After a player's ticket for `pool_id` is stored, any further `join` of
/// that pool by the player is refused as already joined, whatever pool
/// type it resolves to.
pub proof fn law_second_join_refused(
    st: PoolState,
    sender: AccountId,
    pool_id: ID,
    t: TicketInfo,
    ticket_type: Result<TicketType, Error>,
)
    requires
        st.wf(),
        ticket_pool(t.ticket_type) == pool_id,
    ensures
        join_check_spec(
            PoolState { tickets: insert_entry(st.tickets, sender, pool_id, t), ..st },
            sender,
            pool_id,
            ticket_type,
        ) == Err::<TicketType, DispatchError>(DispatchError::Pool(Error::AlreadyJoined)),
{
    law_stored_ticket_blocks_rejoin(st.tickets, sender, pool_id, t);
}

/// Once a player's ticket for a pool is removed (by `leave`), reading it
/// gives nothing, and every other player's and pool's ticket is untouched.
pub proof fn law_leave_forgets_only_that_ticket(
    s: Seq<TicketEntry>,
    sender: AccountId,
    pool_id: ID,
    other: AccountId,
    other_pool: ID,
)
    requires
        keys_unique(s),
    ensures
        lookup(remove_entry(s, sender, pool_id), sender, pool_id) is None,
        !(other == sender && other_pool == pool_id) ==> lookup(
            remove_entry(s, sender, pool_id),
            other,
            other_pool,
        ) == lookup(s, other, other_pool),
{
    lemma_kv_lookup_remove(s, (sender, pool_id), (other, other_pool));
}

/// Spending a ticket (by `use_ticket`) leaves it with one transaction
/// fewer, of the same type, and every other ticket untouched.
pub proof fn law_spent_ticket_reads_back(
    s: Seq<TicketEntry>,
    player: AccountId,
    pool_id: ID,
    t: TicketInfo,
    other: AccountId,
    other_pool: ID,
)
    requires
        keys_unique(s),
        lookup(s, player, pool_id) == Some(t),
        t.tickets >= 1,
    ensures
        lookup(
            insert_entry(
                s,
                player,
                pool_id,
                TicketInfo { ticket_type: t.ticket_type, tickets: (t.tickets - 1) as u32 },
            ),
            player,
            pool_id,
        ) == Some(TicketInfo { ticket_type: t.ticket_type, tickets: (t.tickets - 1) as u32 }),
        !(other == player && other_pool == pool_id) ==> lookup(
            insert_entry(
                s,
                player,
                pool_id,
                TicketInfo { ticket_type: t.ticket_type, tickets: (t.tickets - 1) as u32 },
            ),
            other,
            other_pool,
        ) == lookup(s, other, other_pool),
{
    lemma_kv_lookup_insert(
        s,
        (player, pool_id),
        TicketInfo { ticket_type: t.ticket_type, tickets: (t.tickets - 1) as u32 },
        (other, other_pool),
    );
}

/// `leave_all` removes exactly the first `limit` tickets of the player (all
/// of them when it holds fewer) and no ticket of anybody else.
pub proof fn law_clear_prefix_counts(s: Seq<TicketEntry>, account: AccountId, limit: nat, other: AccountId)
    ensures
        count_of(clear_prefix_seq(s, account, limit), account) == if count_of(s, account) <= limit {
            0
        } else {
            count_of(s, account) - limit
        },
        other != account ==> count_of(clear_prefix_seq(s, account, limit), other) == count_of(s, other),
    decreases s.len(),
{
    if s.len() > 0 {
        law_clear_prefix_counts(s.drop_last(), account, limit, other);
        let prev = clear_prefix_seq(s.drop_last(), account, limit);
        let last = s.last();
        if !(last.key.0 == account && count_of(s.drop_last(), account) < limit) {
            assert(prev.push(last).drop_last() =~= prev);
        }
    }
}

/// Renewal changes only counts: every player has joined exactly the pools
/// it had joined before.
pub proof fn law_renew_keeps_membership(
    s: Seq<TicketEntry>,
    services: Seq<Option<Service>>,
    sender: AccountId,
    pool_id: ID,
)
    requires
        services.len() == s.len(),
    ensures
        joined(renewed(s, services), sender, pool_id) == joined(s, sender, pool_id),
{
    let r = renewed(s, services);
    if joined(s, sender, pool_id) {
        let i = choose|i: int|
            0 <= i < s.len() && (#[trigger] s[i]).key.0 == sender && blocks_join(
                s[i].value.ticket_type,
                pool_id,
            );
        assert(r[i].key.0 == s[i].key.0);
        assert(r[i].value.ticket_type == s[i].value.ticket_type);
    }
    if joined(r, sender, pool_id) {
        let i = choose|i: int|
            0 <= i < r.len() && (#[trigger] r[i]).key.0 == sender && blocks_join(
                r[i].value.ticket_type,
                pool_id,
            );
        assert(r[i].key.0 == s[i].key.0);
        assert(r[i].value.ticket_type == s[i].value.ticket_type);
    }
}

/// The mark never moves backwards, and it never falls a whole period or
/// more behind the end of a block.
pub proof fn law_mark_time_monotone(mark: u128, period: u128, now: u64)
    requires
        mark <= now,
    ensures
        mark <= finalized_mark(mark, period, now) <= now,
        now - finalized_mark(mark, period, now) < period || finalized_mark(mark, period, now) == now,
{
}

/// An upfront or staking ticket.
pub open spec fn is_system_ticket(t: TicketType) -> bool {
    t is Upfront || t is Staking
}

/// No player holds two upfront or staking tickets.
pub open spec fn one_system_ticket(s: Seq<TicketEntry>) -> bool {
    forall|i: int, j: int|
        0 <= i < s.len() && 0 <= j < s.len() && i != j && s[i].key.0 == s[j].key.0 ==> !(
        is_system_ticket(#[trigger] s[i].value.ticket_type) && is_system_ticket(
            #[trigger] s[j].value.ticket_type,
        ))
}

/// `join` keeps every player at one upfront or staking ticket at most: a
/// player it lets through holds no such ticket yet, whatever pool it then
/// joins and whatever the pool answers.
pub proof fn law_join_keeps_one_system_ticket(
    before: PoolState,
    after: PoolState,
    sender: AccountId,
    pool_id: ID,
    ticket_type: Result<TicketType, Error>,
    answer: DispatchResult,
    ticket: Result<TicketInfo, Error>,
)
    requires
        before.wf(),
        one_system_ticket(before.tickets),
        join_check_spec(before, sender, pool_id, ticket_type) is Ok,
        join_complete_spec(before, after, sender, pool_id, answer, ticket),
    ensures
        one_system_ticket(after.tickets),
{
    let s = before.tickets;
    assert forall|k: int| 0 <= k < s.len() && (#[trigger] s[k]).key.0 == sender implies !is_system_ticket(
        s[k].value.ticket_type,
    ) by {
        if is_system_ticket(s[k].value.ticket_type) {
            assert(blocks_join(s[k].value.ticket_type, pool_id));
            assert(joined(s, sender, pool_id));
        }
    }
    if answer is Ok {
        if let Ok(t) = ticket {
            let u = insert_entry(s, sender, pool_id, t);
            let e = TicketEntry { key: (sender, pool_id), value: t };
            if kv_has(s, (sender, pool_id)) {
                let pos = kv_index(s, (sender, pool_id));
                assert(u == s.update(pos, e));
                assert forall|i: int, j: int|
                    0 <= i < u.len() && 0 <= j < u.len() && i != j && u[i].key.0
                        == u[j].key.0 implies !(is_system_ticket(#[trigger] u[i].value.ticket_type)
                    && is_system_ticket(#[trigger] u[j].value.ticket_type)) by {
                    if i == pos {
                        assert(u[j] == s[j]);
                    } else if j == pos {
                        assert(u[i] == s[i]);
                    } else {
                        assert(u[i] == s[i] && u[j] == s[j]);
                    }
                }
            } else {
                assert(u == s.push(e));
                assert forall|i: int, j: int|
                    0 <= i < u.len() && 0 <= j < u.len() && i != j && u[i].key.0
                        == u[j].key.0 implies !(is_system_ticket(#[trigger] u[i].value.ticket_type)
                    && is_system_ticket(#[trigger] u[j].value.ticket_type)) by {
                    if i == s.len() {
                        assert(u[j] == s[j]);
                    } else if j == s.len() {
                        assert(u[i] == s[i]);
                    } else {
                        assert(u[i] == s[i] && u[j] == s[j]);
                    }
                }
            }
        }
    }
}

/// Leaving and joining again gives the remaining count back: with the
/// ticket that `leave` cached for the player, the same pool kind still
/// serving the pool id, and the pool admitting the player, `join` stores
/// the cached ticket, not a fresh one.
pub proof fn law_rejoin_restores_ticket(
    before: PoolState,
    after: PoolState,
    sender: AccountId,
    pool_id: ID,
    services: PoolServices,
    t: TicketInfo,
)
    requires
        before.wf(),
        ticket_type_spec(pool_id, services) == Ok::<TicketType, Error>(t.ticket_type),
        join_complete_spec(before, after, sender, pool_id, Ok(()), create_ticket_spec(pool_id, services, Some(t))),
    ensures
        create_ticket_spec(pool_id, services, Some(t)) == Ok::<TicketInfo, Error>(t),
        lookup(after.tickets, sender, pool_id) == Some(t),
{
    lemma_kv_lookup_insert(before.tickets, (sender, pool_id), t, (sender, pool_id));
}

/// An upfront or staking ticket with a transaction left is usable by its
/// holder whatever the target, a contract or none: only sponsored tickets
/// depend on the target.
pub proof fn law_system_ticket_usable_for_any_target(
    e: TicketEntry,
    player: AccountId,
    target: Option<H160>,
    targets: Seq<H160>,
)
    requires
        e.key.0 == player,
        e.value.tickets >= 1,
        !(e.value.ticket_type is Sponsored),
    ensures
        usable(e, player, target, targets),
{
}

proof fn lemma_count_update(s: Seq<TicketEntry>, i: int, e: TicketEntry, a: AccountId)
    requires
        0 <= i < s.len(),
        (s[i].key.0 == a) == (e.key.0 == a),
    ensures
        count_of(s.update(i, e), a) == count_of(s, a),
    decreases s.len(),
{
    let u = s.update(i, e);
    if i == s.len() - 1 {
        assert(u.drop_last() =~= s.drop_last());
    } else {
        assert(u.drop_last() =~= s.drop_last().update(i, e));
        lemma_count_update(s.drop_last(), i, e, a);
    }
}

proof fn lemma_count_push(s: Seq<TicketEntry>, e: TicketEntry, a: AccountId)
    requires
        e.key.0 != a,
    ensures
        count_of(s.push(e), a) == count_of(s, a),
{
    assert(s.push(e).drop_last() =~= s);
}

proof fn lemma_count_remove(s: Seq<TicketEntry>, i: int, a: AccountId)
    requires
        0 <= i < s.len(),
        s[i].key.0 != a,
    ensures
        count_of(s.remove(i), a) == count_of(s, a),
    decreases s.len(),
{
    let u = s.remove(i);
    if i == s.len() - 1 {
        assert(u =~= s.drop_last());
    } else {
        assert(u.drop_last() =~= s.drop_last().remove(i));
        assert(u.last() == s.last());
        lemma_count_remove(s.drop_last(), i, a);
    }
}

/// Storing or removing a ticket of another account changes neither whether
/// the sender counts as joined nor how many tickets it holds.
proof fn lemma_other_account_invisible(s: Seq<TicketEntry>, u: Seq<TicketEntry>, sender: AccountId, pool_id: ID)
    requires
        keys_unique(s),
        u.len() == s.len() + 1 ==> u.last().key.0 != sender && u.drop_last() == s,
        u.len() == s.len() ==> exists|k: int|
            0 <= k < s.len() && s[k].key.0 != sender && u[k].key.0 != sender && #[trigger] s.update(k, u[k]) == u,
        u.len() + 1 == s.len() ==> exists|k: int| 0 <= k < s.len() && (#[trigger] s[k]).key.0 != sender && s.remove(k) == u,
        u.len() == s.len() || u.len() == s.len() + 1 || u.len() + 1 == s.len(),
    ensures
        joined(u, sender, pool_id) == joined(s, sender, pool_id),
        count_of(u, sender) == count_of(s, sender),
{
    if u.len() == s.len() + 1 {
        lemma_count_push(s, u.last(), sender);
        assert(s.push(u.last()) =~= u);
        if joined(s, sender, pool_id) {
            let i = choose|i: int|
                0 <= i < s.len() && (#[trigger] s[i]).key.0 == sender && blocks_join(s[i].value.ticket_type, pool_id);
            assert(u[i] == s[i]);
        }
        if joined(u, sender, pool_id) {
            let i = choose|i: int|
                0 <= i < u.len() && (#[trigger] u[i]).key.0 == sender && blocks_join(u[i].value.ticket_type, pool_id);
            assert(i < s.len());
            assert(u[i] == s[i]);
        }
    } else if u.len() == s.len() {
        let k = choose|k: int|
            0 <= k < s.len() && s[k].key.0 != sender && u[k].key.0 != sender && #[trigger] s.update(k, u[k]) == u;
        lemma_count_update(s, k, u[k], sender);
        if joined(s, sender, pool_id) {
            let i = choose|i: int|
                0 <= i < s.len() && (#[trigger] s[i]).key.0 == sender && blocks_join(s[i].value.ticket_type, pool_id);
            assert(i != k);
            assert(u[i] == s[i]);
        }
        if joined(u, sender, pool_id) {
            let i = choose|i: int|
                0 <= i < u.len() && (#[trigger] u[i]).key.0 == sender && blocks_join(u[i].value.ticket_type, pool_id);
            assert(i != k);
            assert(u[i] == s[i]);
        }
    } else {
        let k = choose|k: int| 0 <= k < s.len() && (#[trigger] s[k]).key.0 != sender && s.remove(k) == u;
        lemma_count_remove(s, k, sender);
        if joined(s, sender, pool_id) {
            let i = choose|i: int|
                0 <= i < s.len() && (#[trigger] s[i]).key.0 == sender && blocks_join(s[i].value.ticket_type, pool_id);
            assert(i != k);
            let j = if i < k { i } else { i - 1 };
            assert(u[j] == s[i]);
        }
        if joined(u, sender, pool_id) {
            let j = choose|j: int|
                0 <= j < u.len() && (#[trigger] u[j]).key.0 == sender && blocks_join(u[j].value.ticket_type, pool_id);
            let i = if j < k { j } else { j + 1 };
            assert(u[j] == s[i]);
        }
    }
}

/// `join`'s admission of a sender depends only on the sender's own tickets:
/// storing or removing a ticket of any other account never changes it, so
/// the sponsored-pool limit counts the sender's tickets alone.
pub proof fn law_join_check_ignores_other_accounts(
    st: PoolState,
    sender: AccountId,
    pool_id: ID,
    ticket_type: Result<TicketType, Error>,
    other: AccountId,
    other_pool: ID,
    t: TicketInfo,
)
    requires
        st.wf(),
        other != sender,
    ensures
        join_check_spec(
            PoolState { tickets: insert_entry(st.tickets, other, other_pool, t), ..st },
            sender,
            pool_id,
            ticket_type,
        ) == join_check_spec(st, sender, pool_id, ticket_type),
        join_check_spec(
            PoolState { tickets: remove_entry(st.tickets, other, other_pool), ..st },
            sender,
            pool_id,
            ticket_type,
        ) == join_check_spec(st, sender, pool_id, ticket_type),
{
    let s = st.tickets;
    let key = (other, other_pool);
    let e = TicketEntry { key, value: t };
    let ins = insert_entry(s, other, other_pool, t);
    if kv_has(s, key) {
        let k = kv_index(s, key);
        assert(s[k].key == key);
        assert(ins == s.update(k, e));
        assert(s.update(k, ins[k]) == ins);
        lemma_other_account_invisible(s, ins, sender, pool_id);
        let rem = remove_entry(s, other, other_pool);
        assert(rem == s.remove(k));
        lemma_other_account_invisible(s, rem, sender, pool_id);
    } else {
        assert(ins == s.push(e));
        assert(ins.drop_last() =~= s);
        lemma_other_account_invisible(s, ins, sender, pool_id);
        assert(remove_entry(s, other, other_pool) == s);
    }
}

/// A successful `leave` of `pool_id` removes the sender's ticket for that
/// pool and no other: every other (account, pool) ticket reads as before.
pub proof fn law_leave_removes_only_that_ticket(
    before: PoolState,
    after: PoolState,
    sender: AccountId,
    pool_id: ID,
    ticket: TicketInfo,
    answer: DispatchResult,
    r: DispatchResult,
    other: AccountId,
    other_pool: ID,
)
    requires
        before.wf(),
        answer is Ok,
        leave_outcome(before, after, sender, pool_id, ticket, answer, r),
    ensures
        r is Ok,
        lookup(after.tickets, sender, pool_id) is None,
        !(other == sender && other_pool == pool_id) ==> lookup(after.tickets, other, other_pool) == lookup(
            before.tickets,
            other,
            other_pool,
        ),
{
    lemma_kv_lookup_remove(before.tickets, (sender, pool_id), (other, other_pool));
}

/// Renewal sets every ticket whose pool offers a service to that service's
/// transaction limit, whatever the ticket type, keeping its key and type;
/// a ticket whose pool offers nothing is left as it was.
pub proof fn law_renew_sets_every_offered_ticket(s: Seq<TicketEntry>, services: Seq<Option<Service>>, i: int)
    requires
        services.len() == s.len(),
        0 <= i < s.len(),
    ensures
        renewed(s, services).len() == s.len(),
        renewed(s, services)[i].key == s[i].key,
        renewed(s, services)[i].value.ticket_type == s[i].value.ticket_type,
        services[i] matches Some(sv) ==> renewed(s, services)[i].value.tickets == sv.tx_limit,
        services[i] is None ==> renewed(s, services)[i] == s[i],
{
}

} // verus!
