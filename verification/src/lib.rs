//! Cross-exchange arbitrage engine: quote normalization, opportunity scanning,
//! bounded history storage and the message logic of the exchange feeds.

pub mod config;
pub mod decimal;
pub mod feeds;
pub mod json;
pub mod models;
pub mod normalizer;
pub mod pipeline;
pub mod rates;
pub mod store;
pub mod strategy;
pub mod text;
pub mod time;
