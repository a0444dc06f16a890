//! A verified core for a market reference-data backend: exchanges, assets
//! and market pairs in a document store, arbitrage strategies over them,
//! and a suggestion engine that discovers geographic arbitrage candidates
//! across two exchanges.

pub mod asset_service;
pub mod clock;
pub mod equivalence;
pub mod errors;
pub mod textmatch;
pub mod exchange_service;
pub mod market_pair_service;
pub mod record_id;
pub mod response;
pub mod schema;
pub mod store;
pub mod strategy;
pub mod strategy_service;
pub mod suggestion;
pub mod validator;
