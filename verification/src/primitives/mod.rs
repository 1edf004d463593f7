pub mod constant;
pub mod currency;
pub mod pool;
pub mod system_services;
pub mod ticket;
pub mod whitelist;
pub mod custom_services;
pub mod cache;
