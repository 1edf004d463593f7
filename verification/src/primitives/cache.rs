//! A cache keyed by an account and an action.

use vstd::prelude::*;

verus! {

/// A cache: `spec_get` is what `get` reports; an inserted entry reads
/// back and every other entry reads as before.
pub trait Cache<AccountId, Action, Data> {
    spec fn spec_get(&self, id: AccountId, action: Action) -> Option<Data>;

    fn insert(&mut self, id: AccountId, action: Action, data: Data)
        ensures
            final(self).spec_get(id, action) == Some(data),
            forall|i: AccountId, a: Action|
                !(i == id && a == action) ==> #[trigger] final(self).spec_get(i, a) == old(self).spec_get(i, a),
    ;

    fn get(&self, id: AccountId, action: Action) -> (r: Option<Data>)
        ensures
            r == self.spec_get(id, action),
    ;
}

/// `after` is `before` with `data` stored under (id, action): that entry
/// reads back and every other entry reads as before.
pub open spec fn cache_inserted<AccountId, Action, Data, K: Cache<AccountId, Action, Data>>(
    before: K,
    after: K,
    id: AccountId,
    action: Action,
    data: Data,
) -> bool {
    &&& after.spec_get(id, action) == Some(data)
    &&& forall|i: AccountId, a: Action|
        !(i == id && a == action) ==> #[trigger] after.spec_get(i, a) == before.spec_get(i, a)
}

} // verus!
