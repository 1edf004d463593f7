pub mod tickets;
pub mod pool;
pub mod pool_laws;
pub mod upfront_pool;
pub mod whitelist;
pub mod whitelist_laws;
pub mod faucet;
pub mod wiring;
