//! Decision logic of a single-direction OKX/Bybit perpetual spread arbitrage
//! bot: market-data decoding, the entry/exit strategy, the trading engine's
//! state machine, order and login request construction, and request signing.
//! Network and clock access live with the caller.

pub mod decimal;
pub mod text;
pub mod signing;
pub mod model;
pub mod strategy;
pub mod json;
pub mod market;
pub mod monitor;
pub mod auth;
pub mod orders;
pub mod config;
pub mod engine;
pub mod frames;
