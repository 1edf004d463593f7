# gafi_pallets

The Gafi pool pallets, written and verified in Verus.

- `src/primitives/`: the shared types and the interfaces between pallets
  (tickets, services, pools, whitelists, cache, tokens).
- `src/pallets/pool.rs`: the pool hub (join, leave, leave_all, tickets,
  use_ticket, renewal, end-of-block mark); `tickets.rs` is its ticket
  storage and `pool_laws.rs` its cross-operation properties.
- `src/pallets/upfront_pool.rs`, `whitelist.rs` (with `whitelist_laws.rs`),
  `faucet.rs`: the other pallets.
- `src/pallets/wiring.rs`: the pool hub and the whitelist pallet bound to
  the pools they consult, serving the interfaces other pallets call.
- `src/storage.rs`: the storage map the pallets share, keyed by a 32-byte
  id or by a pair of them.
- `src/codec.rs`: hex, SCALE and UTF-8 encodings taken from outside crates.
- `app/`: runtime glue for the currency, the clock and offchain HTTP.

## Storage

On a Substrate runtime these pallets keep their state in FRAME storage
items (`StorageValue`, `StorageMap`, `StorageDoubleMap`, bounded vectors),
declared through FRAME's pallet macros and read and written through the
runtime's storage externalities. Those macros, and the host functions
behind them, exist only inside a runtime: a verified library can neither
expand them nor reason about what they read back. So each pallet here
holds its storage in a value of its own type, viewed abstractly through
`View`, and every map is the one map of `src/storage.rs`: a sequence of
entries in storage order with no key twice, proved to read back what was
written and to leave every other key alone. The pool hub's double map is
that map keyed by (account, pool id); `tickets.rs` adds only what a double
map has beyond it, counting and clearing the entries of one account.

## Outside calls

Calls that reach the currency return the balance operation to carry out,
except the faucet, which reads balances and makes its transfers through
the currency interface of `primitives`. The pallets reach each other through the traits of
`primitives`: each trait states, through spec functions, what an
implementation answers, so a pallet's contract says which pool it asked
and what it did with the answer.
