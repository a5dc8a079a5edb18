pub mod amm;
pub mod common;
pub mod events;
pub mod factory;
pub mod farm;
pub mod fee;
pub mod pair;
pub mod proxy;
pub mod token_send;
pub mod token_supply;
