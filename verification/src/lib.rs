//! The Gafi pool pallets, verified: ticket bookkeeping for the pool
//! hub, the upfront pool, whitelisting of sponsored pools and the faucet.
//! Each pallet's on-chain storage is held in a state value of its own, and
//! every call into another pallet goes through the traits of `primitives`.

pub mod support;
pub mod storage;
pub mod codec;
pub mod primitives;
pub mod pallets;
